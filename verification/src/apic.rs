//! Models of the two interrupt-controller devices the bring-up sequence
//! programs: the per-processor Local APIC and the system I/O APIC(s).
//!
//! Each model is a plain-data register file. The bring-up and calibration
//! logic computes lists of [`HwOp`] register operations; applying a list to a
//! model yields exactly the device state the real hardware reaches when an
//! unverified driver replays the same list over the memory-mapped windows.

use vstd::prelude::*;

use crate::interrupts::TIMER_VECTOR;

verus! {

/// Local vector table entry flag: periodic timer mode.
pub const APIC_TIMER_PERIODIC: u32 = 0x20000;

/// Local vector table entry flag: the interrupt line is masked.
pub const APIC_MASKED: u32 = 0x10000;

/// Spurious-interrupt vector register bit 8: software-enable the Local APIC.
pub const SVR_SOFTWARE_ENABLE: u32 = 0x100;

/// Spurious-interrupt vector register.
pub const LAPIC_SVR_REG: usize = 0xF0;

/// End-of-interrupt register (write-only on hardware).
pub const LAPIC_EOI_REG: usize = 0xB0;

/// Local vector table entry for the Local APIC timer.
pub const LAPIC_LVT_TIMER_REG: usize = 0x320;

/// Local vector table entry for the LINT0 line.
pub const LAPIC_LVT_LINT0_REG: usize = 0x350;

/// Local vector table entry for the LINT1 line.
pub const LAPIC_LVT_LINT1_REG: usize = 0x360;

/// Initial count of the Local APIC timer; writing it starts the countdown.
pub const LAPIC_TIMER_INITCNT_REG: usize = 0x380;

/// Current (remaining) count of the Local APIC timer; read-only on hardware.
pub const LAPIC_TIMER_CURRCNT_REG: usize = 0x390;

/// Divider configuration of the Local APIC timer.
pub const LAPIC_TIMER_DIV_REG: usize = 0x3E0;

/// Encoding of divide-by-16 in the timer divider register.
pub const LAPIC_TIMER_DIV_BY_16: u32 = 3;

/// I/O APIC version register index (holds the redirection entry count).
pub const IOAPICVER: u8 = 1;

/// Index of the first redirection-table register of an I/O APIC.
pub const IOAPIC_FIRST_REDIR_REG: u8 = 0x10;

/// One hardware register operation of the bring-up protocol. The unverified
/// driver layer replays these in list order as strictly ordered, uncached
/// (volatile) accesses; the models below give them their meaning.
#[derive(Clone, Copy, PartialEq, Eq, Debug)]
pub enum HwOp {
    /// Write one byte to a legacy I/O port.
    PortWrite { port: u16, value: u8 },
    /// Write a Local APIC register at the given window offset.
    LapicWrite { offset: usize, value: u32 },
    /// Read-modify-write a Local APIC register, setting the given bits.
    LapicSetBits { offset: usize, bits: u32 },
    /// Write redirection register `reg` of the I/O APIC at index `apic`.
    IoApicWrite { apic: usize, reg: u8, value: u32 },
    /// Read-modify-write redirection register `reg`, setting the given bits.
    IoApicSetBits { apic: usize, reg: u8, bits: u32 },
    /// Globally enable interrupt reception on the boot processor.
    EnableInterrupts,
    /// Globally disable interrupt reception on the boot processor.
    DisableInterrupts,
}

/// Register-file model of the Local APIC. On hardware the registers live in a
/// fixed physical window; `base` records where that window was mapped.
#[derive(Clone, Copy, PartialEq, Eq, Debug)]
pub struct Lapic {
    /// Virtual address of the start of the register window.
    pub base: usize,
    /// Spurious-interrupt vector register.
    pub svr: u32,
    /// Local vector table entry of the timer.
    pub lvt_timer: u32,
    /// Local vector table entry of LINT0.
    pub lvt_lint0: u32,
    /// Local vector table entry of LINT1.
    pub lvt_lint1: u32,
    /// Timer divider register.
    pub timer_div: u32,
    /// Timer initial count register.
    pub timer_initcnt: u32,
    /// Timer current count register; decremented by the hardware.
    pub timer_currcnt: u32,
    /// Number of end-of-interrupt acknowledgements signalled so far.
    pub eoi_count: u64,
}

/// True for the Local APIC register offsets the bring-up protocol writes.
pub open spec fn lapic_writable(offset: usize) -> bool {
    ||| offset == LAPIC_SVR_REG
    ||| offset == LAPIC_LVT_TIMER_REG
    ||| offset == LAPIC_LVT_LINT0_REG
    ||| offset == LAPIC_LVT_LINT1_REG
    ||| offset == LAPIC_TIMER_INITCNT_REG
    ||| offset == LAPIC_TIMER_DIV_REG
}

/// True for the Local APIC register offsets the protocol reads.
pub open spec fn lapic_readable(offset: usize) -> bool {
    lapic_writable(offset) || offset == LAPIC_TIMER_CURRCNT_REG
}

/// The register value a read at `offset` returns.
pub open spec fn lapic_read(l: Lapic, offset: usize) -> u32 {
    if offset == LAPIC_SVR_REG {
        l.svr
    } else if offset == LAPIC_LVT_TIMER_REG {
        l.lvt_timer
    } else if offset == LAPIC_LVT_LINT0_REG {
        l.lvt_lint0
    } else if offset == LAPIC_LVT_LINT1_REG {
        l.lvt_lint1
    } else if offset == LAPIC_TIMER_INITCNT_REG {
        l.timer_initcnt
    } else if offset == LAPIC_TIMER_DIV_REG {
        l.timer_div
    } else {
        l.timer_currcnt
    }
}

/// The model state after writing `value` at `offset`. Writing the initial
/// count also loads the current count: the hardware timer starts counting
/// down from the written value immediately.
pub open spec fn lapic_write(l: Lapic, offset: usize, value: u32) -> Lapic {
    if offset == LAPIC_SVR_REG {
        (Lapic { svr: value, ..l })
    } else if offset == LAPIC_LVT_TIMER_REG {
        (Lapic { lvt_timer: value, ..l })
    } else if offset == LAPIC_LVT_LINT0_REG {
        (Lapic { lvt_lint0: value, ..l })
    } else if offset == LAPIC_LVT_LINT1_REG {
        (Lapic { lvt_lint1: value, ..l })
    } else if offset == LAPIC_TIMER_INITCNT_REG {
        (Lapic { timer_initcnt: value, timer_currcnt: value, ..l })
    } else {
        (Lapic { timer_div: value, ..l })
    }
}

impl Lapic {
    /// A freshly mapped view of the register window at `base`, with every
    /// modelled register in its reset state.
    pub fn new(base: usize) -> (r: Lapic)
        ensures
            r == (Lapic {
                base,
                svr: 0u32,
                lvt_timer: 0u32,
                lvt_lint0: 0u32,
                lvt_lint1: 0u32,
                timer_div: 0u32,
                timer_initcnt: 0u32,
                timer_currcnt: 0u32,
                eoi_count: 0u64,
            }),
    {
        Lapic {
            base,
            svr: 0,
            lvt_timer: 0,
            lvt_lint0: 0,
            lvt_lint1: 0,
            timer_div: 0,
            timer_initcnt: 0,
            timer_currcnt: 0,
            eoi_count: 0,
        }
    }

    /// Read the register at `offset`.
    pub fn read_register(&self, offset: usize) -> (r: u32)
        requires
            lapic_readable(offset),
        ensures
            r == lapic_read(*self, offset),
    {
        if offset == LAPIC_SVR_REG {
            self.svr
        } else if offset == LAPIC_LVT_TIMER_REG {
            self.lvt_timer
        } else if offset == LAPIC_LVT_LINT0_REG {
            self.lvt_lint0
        } else if offset == LAPIC_LVT_LINT1_REG {
            self.lvt_lint1
        } else if offset == LAPIC_TIMER_INITCNT_REG {
            self.timer_initcnt
        } else if offset == LAPIC_TIMER_DIV_REG {
            self.timer_div
        } else {
            self.timer_currcnt
        }
    }

    /// Write `value` to the register at `offset`.
    pub fn write_register(&mut self, offset: usize, value: u32)
        requires
            lapic_writable(offset),
        ensures
            *final(self) == lapic_write(*old(self), offset, value),
    {
        if offset == LAPIC_SVR_REG {
            self.svr = value;
        } else if offset == LAPIC_LVT_TIMER_REG {
            self.lvt_timer = value;
        } else if offset == LAPIC_LVT_LINT0_REG {
            self.lvt_lint0 = value;
        } else if offset == LAPIC_LVT_LINT1_REG {
            self.lvt_lint1 = value;
        } else if offset == LAPIC_TIMER_INITCNT_REG {
            self.timer_initcnt = value;
            self.timer_currcnt = value;
        } else {
            self.timer_div = value;
        }
    }

    /// Read-modify-write: set `bits` in the register at `offset`.
    pub fn set_bits(&mut self, offset: usize, bits: u32)
        requires
            lapic_writable(offset),
            lapic_readable(offset),
        ensures
            *final(self) == lapic_write(
                *old(self),
                offset,
                lapic_read(*old(self), offset) | bits,
            ),
    {
        let reg = self.read_register(offset);
        self.write_register(offset, reg | bits);
    }

    /// Acknowledge the interrupt in service, permitting further interrupts of
    /// equal or lower priority to be delivered.
    pub fn end_of_interrupt(&mut self)
        ensures
            *final(self) == (Lapic {
                eoi_count: vstd::wrapping::u64_specs::wrapping_add(old(self).eoi_count, 1),
                ..*old(self)
            }),
    {
        self.eoi_count = self.eoi_count.wrapping_add(1);
    }

    /// Apply one Local APIC operation of a bring-up plan to the model.
    pub fn apply(&mut self, op: &HwOp)
        requires
            lapic_op_ok(*op),
        ensures
            *final(self) == lapic_step(*old(self), *op),
    {
        match op {
            HwOp::LapicWrite { offset, value } => {
                self.write_register(*offset, *value);
            }
            HwOp::LapicSetBits { offset, bits } => {
                self.set_bits(*offset, *bits);
            }
            _ => {}
        }
    }
}

/// True if `op` is a Local APIC operation on a modelled register.
pub open spec fn lapic_op_ok(op: HwOp) -> bool {
    match op {
        HwOp::LapicWrite { offset, value: _ } => lapic_writable(offset),
        HwOp::LapicSetBits { offset, bits: _ } => lapic_writable(offset),
        _ => true,
    }
}

/// Effect of one operation on the Local APIC model; operations addressed to
/// other devices leave it unchanged.
pub open spec fn lapic_step(l: Lapic, op: HwOp) -> Lapic {
    match op {
        HwOp::LapicWrite { offset, value } => lapic_write(l, offset, value),
        HwOp::LapicSetBits { offset, bits } => lapic_write(l, offset, lapic_read(l, offset) | bits),
        _ => l,
    }
}

/// Register-file model of one I/O APIC: its redirection table, stored as the
/// raw 32-bit register dwords. Entry `i` occupies `redirection[2 * i]` (low
/// dword: vector and mask bit) and `redirection[2 * i + 1]` (high dword:
/// destination field).
#[derive(Clone, PartialEq, Eq, Debug)]
pub struct IoApic {
    /// Virtual address of the IOREGSEL window.
    pub base: usize,
    /// Raw redirection-table registers, two per redirection entry.
    pub redirection: Vec<u32>,
}

impl IoApic {
    /// A model of an I/O APIC with `entries` redirection entries, registers
    /// in an unknown-as-zero state, mapped at `base`.
    pub fn new(base: usize, entries: u8) -> (r: IoApic)
        ensures
            r.base == base,
            r.redirection@.len() == 2 * entries,
            forall|i: int| 0 <= i < r.redirection@.len() ==> r.redirection@[i] == 0u32,
    {
        let mut redirection: Vec<u32> = Vec::new();
        let n: usize = 2 * (entries as usize);
        let mut i: usize = 0;
        while i < n
            invariant
                i <= n,
                redirection@.len() == i,
                forall|j: int| 0 <= j < i ==> redirection@[j] == 0u32,
            decreases n - i,
        {
            redirection.push(0);
            i = i + 1;
        }
        IoApic { base, redirection }
    }

    /// Number of redirection entries this I/O APIC offers.
    pub fn redirection_entries(&self) -> (r: usize)
        ensures
            r == self.redirection@.len() / 2,
    {
        self.redirection.len() / 2
    }

    /// Read redirection register `reg`.
    pub fn read_register(&self, reg: u8) -> (r: u32)
        requires
            ioapic_reg_ok(*self, reg),
        ensures
            r == self.redirection@[reg - IOAPIC_FIRST_REDIR_REG],
    {
        self.redirection[(reg - IOAPIC_FIRST_REDIR_REG) as usize]
    }

    /// Write `value` to redirection register `reg`.
    pub fn write_register(&mut self, reg: u8, value: u32)
        requires
            ioapic_reg_ok(*old(self), reg),
        ensures
            final(self).base == old(self).base,
            final(self).redirection@ == old(self).redirection@.update(
                reg - IOAPIC_FIRST_REDIR_REG,
                value,
            ),
    {
        let idx: usize = (reg - IOAPIC_FIRST_REDIR_REG) as usize;
        self.redirection.set(idx, value);
    }

    /// Read-modify-write: set `bits` in redirection register `reg`.
    pub fn set_bits(&mut self, reg: u8, bits: u32)
        requires
            ioapic_reg_ok(*old(self), reg),
        ensures
            final(self).base == old(self).base,
            final(self).redirection@ == old(self).redirection@.update(
                reg - IOAPIC_FIRST_REDIR_REG,
                old(self).redirection@[reg - IOAPIC_FIRST_REDIR_REG] | bits,
            ),
    {
        let reg_value = self.read_register(reg);
        self.write_register(reg, reg_value | bits);
    }
}

/// True if `reg` addresses a redirection register present on this I/O APIC.
pub open spec fn ioapic_reg_ok(a: IoApic, reg: u8) -> bool {
    IOAPIC_FIRST_REDIR_REG <= reg && reg - IOAPIC_FIRST_REDIR_REG < a.redirection@.len()
}

/// One I/O APIC as the platform firmware tables describe it.
#[derive(Clone, Copy, PartialEq, Eq, Structural, Debug)]
pub struct IoApicDescriptor {
    /// Physical address of the register window.
    pub address: u32,
    /// First global system interrupt number this I/O APIC serves.
    pub global_system_interrupt_base: u32,
}

/// One legacy ISA interrupt remap from the platform firmware tables.
#[derive(Clone, Copy, PartialEq, Eq, Structural, Debug)]
pub struct IsaOverride {
    /// The legacy ISA interrupt line being remapped.
    pub isa_source: u8,
    /// The global system interrupt number it was remapped to.
    pub global_system_interrupt: u32,
}

/// The platform description the firmware-table parser hands to controller
/// bring-up, reduced to the plain values the bring-up logic reads.
#[derive(Clone, PartialEq, Eq, Debug)]
pub struct PlatformDescription {
    /// True when the platform's interrupt model is Local-APIC-based; any
    /// other model is a fatal configuration error.
    pub apic_available: bool,
    /// Physical base address of the Local APIC register window.
    pub local_apic_address: u64,
    /// The I/O APICs with their global-interrupt-number bases.
    pub io_apics: Vec<IoApicDescriptor>,
    /// The legacy ISA interrupt remaps.
    pub interrupt_source_overrides: Vec<IsaOverride>,
    /// Local APIC identifier of the boot processor, when the firmware
    /// tables carry processor information.
    pub boot_processor_apic_id: Option<u32>,
}

/// A configuration found in the firmware tables that the kernel cannot
/// safely boot on; all of these abort bring-up.
#[derive(Clone, Copy, PartialEq, Eq, Structural, Debug)]
pub enum ConfigError {
    /// The interrupt model is not Local-APIC-based.
    UnknownInterruptModel,
    /// No remap entry for ISA interrupt 0, so the PIT cannot reach any
    /// I/O APIC redirection entry.
    NoIsaTimerOverride,
    /// The firmware tables carry no boot-processor information, so no
    /// interrupt destination can be programmed.
    NoProcessorInfo,
    /// No I/O APIC serves the global interrupt number the PIT was remapped
    /// to, so there is no redirection entry to program.
    NoTimerRedirectionEntry,
}

/// The number of redirection entries an I/O APIC reports: one more than the
/// value in bits 16..24 of its version register.
pub fn max_redir_count(version: u32) -> (r: u8)
    requires
        ((version >> 16) as u8) < 0xFF,
    ensures
        r == ((version >> 16) as u8) + 1,
{
    let field: u8 = (version >> 16) as u8;
    field + 1
}

/// Build the model view of an I/O APIC from its firmware descriptor, the
/// translated window address, and its hardware-read version register.
pub fn ioapic_view(mapper: &crate::time::Mapper, address: u32, version: u32) -> (r: IoApic)
    requires
        mapper.physical_memory_offset + address <= usize::MAX,
        ((version >> 16) as u8) < 0xFF,
    ensures
        r.base == mapper.physical_memory_offset + address,
        r.redirection@.len() == 2 * (((version >> 16) as u8) + 1),
        forall|i: int| 0 <= i < r.redirection@.len() ==> r.redirection@[i] == 0u32,
{
    let base = mapper.phys_to_virt(address as usize);
    let entries = max_redir_count(version);
    IoApic::new(base, entries)
}

/// The operations of Local APIC bring-up: set the software-enable bit in the
/// spurious-interrupt register, then mask the timer, LINT0 and LINT1 local
/// interrupt lines so nothing fires before calibration configures them.
pub open spec fn init_lapic_ops() -> Seq<HwOp> {
    seq![
        HwOp::LapicSetBits { offset: LAPIC_SVR_REG, bits: SVR_SOFTWARE_ENABLE },
        HwOp::LapicWrite { offset: LAPIC_LVT_TIMER_REG, value: APIC_MASKED },
        HwOp::LapicWrite { offset: LAPIC_LVT_LINT0_REG, value: APIC_MASKED },
        HwOp::LapicWrite { offset: LAPIC_LVT_LINT1_REG, value: APIC_MASKED },
    ]
}

/// The Local APIC model state after running a list of operations in order.
pub open spec fn lapic_run(l: Lapic, ops: Seq<HwOp>) -> Lapic
    decreases ops.len(),
{
    if ops.len() == 0 {
        l
    } else {
        lapic_run(lapic_step(l, ops[0]), ops.drop_first())
    }
}

/// Run a list of operations over the Local APIC model in order; operations
/// addressed to other devices are skipped.
pub fn lapic_apply_all(l: &mut Lapic, ops: &Vec<HwOp>)
    requires
        forall|i: int| 0 <= i < ops@.len() ==> lapic_op_ok(ops@[i]),
    ensures
        *final(l) == lapic_run(*old(l), ops@),
{
    let ghost all = ops@;
    proof {
        assert(all.skip(0) =~= all);
    }
    let mut i: usize = 0;
    while i < ops.len()
        invariant
            i <= all.len(),
            ops@ == all,
            forall|j: int| 0 <= j < all.len() ==> lapic_op_ok(all[j]),
            lapic_run(*l, all.skip(i as int)) == lapic_run(*old(l), all),
        decreases ops@.len() - i,
    {
        proof {
            assert(all.skip(i as int)[0] == all[i as int]);
            assert(all.skip(i as int).drop_first() =~= all.skip(i as int + 1));
        }
        let op = &ops[i];
        l.apply(op);
        i = i + 1;
    }
    proof {
        assert(all.skip(all.len() as int) =~= Seq::<HwOp>::empty());
    }
}

/// Locate the Local APIC, map its register window, and compute the
/// operations that software-enable it and mask its three local interrupt
/// lines. Fails exactly when the interrupt model is not APIC-based.
pub fn init_lapic(platform: &PlatformDescription, mapper: &crate::time::Mapper) -> (r: Result<
    (Lapic, Vec<HwOp>),
    ConfigError,
>)
    requires
        platform.apic_available ==> mapper.physical_memory_offset + platform.local_apic_address
            <= usize::MAX,
    ensures
        !platform.apic_available ==> r == Err::<(Lapic, Vec<HwOp>), ConfigError>(
            ConfigError::UnknownInterruptModel,
        ),
        platform.apic_available ==> (r is Ok && r.unwrap().0 == (Lapic {
            base: (mapper.physical_memory_offset + platform.local_apic_address) as usize,
            svr: 0u32,
            lvt_timer: 0u32,
            lvt_lint0: 0u32,
            lvt_lint1: 0u32,
            timer_div: 0u32,
            timer_initcnt: 0u32,
            timer_currcnt: 0u32,
            eoi_count: 0u64,
        }) && r.unwrap().1@ == init_lapic_ops()),
{
    if !platform.apic_available {
        return Err(ConfigError::UnknownInterruptModel);
    }
    let base = mapper.phys_to_virt(platform.local_apic_address as usize);
    let lapic = Lapic::new(base);
    let ops: Vec<HwOp> = vec![
        HwOp::LapicSetBits { offset: LAPIC_SVR_REG, bits: SVR_SOFTWARE_ENABLE },
        HwOp::LapicWrite { offset: LAPIC_LVT_TIMER_REG, value: APIC_MASKED },
        HwOp::LapicWrite { offset: LAPIC_LVT_LINT0_REG, value: APIC_MASKED },
        HwOp::LapicWrite { offset: LAPIC_LVT_LINT1_REG, value: APIC_MASKED },
    ];
    Ok((lapic, ops))
}

/// Law: whatever state the Local APIC was in, running the bring-up
/// operations leaves the software-enable bit set in the spurious-interrupt
/// register and all three local vector table lines masked, and touches
/// nothing else.
pub proof fn lapic_bringup_law(l: Lapic)
    ensures
        ({
            let r = lapic_run(l, init_lapic_ops());
            r.svr == l.svr | SVR_SOFTWARE_ENABLE && r.svr & SVR_SOFTWARE_ENABLE != 0
                && r.lvt_timer == APIC_MASKED && r.lvt_lint0 == APIC_MASKED && r.lvt_lint1
                == APIC_MASKED && r.base == l.base && r.timer_div == l.timer_div
                && r.timer_initcnt == l.timer_initcnt && r.timer_currcnt == l.timer_currcnt
                && r.eoi_count == l.eoi_count
        }),
{
    let ops = init_lapic_ops();
    let t1 = ops.drop_first();
    let t2 = t1.drop_first();
    let t3 = t2.drop_first();
    let t4 = t3.drop_first();
    let l1 = lapic_step(l, ops[0]);
    let l2 = lapic_step(l1, t1[0]);
    let l3 = lapic_step(l2, t2[0]);
    let l4 = lapic_step(l3, t3[0]);
    assert(t4 =~= Seq::<HwOp>::empty());
    assert(lapic_run(l, ops) == lapic_run(l1, t1));
    assert(lapic_run(l1, t1) == lapic_run(l2, t2));
    assert(lapic_run(l2, t2) == lapic_run(l3, t3));
    assert(lapic_run(l3, t3) == lapic_run(l4, t4));
    assert(lapic_run(l4, t4) == l4);
    assert(l4.svr == l.svr | SVR_SOFTWARE_ENABLE);
    let s = l.svr;
    assert((s | SVR_SOFTWARE_ENABLE) & SVR_SOFTWARE_ENABLE != 0) by (bit_vector);
}

/// The global system interrupt the first remap entry for ISA interrupt 0
/// points at, if any: the interrupt line the PIT drives.
pub open spec fn find_isa0(s: Seq<IsaOverride>) -> Option<u32>
    decreases s.len(),
{
    if s.len() == 0 {
        None
    } else if s[0].isa_source == 0 {
        Some(s[0].global_system_interrupt)
    } else {
        find_isa0(s.drop_first())
    }
}

/// Find the remap entry of ISA interrupt 0 (the PIT's line).
pub fn find_isa_zero(overrides: &Vec<IsaOverride>) -> (r: Option<u32>)
    ensures
        r == find_isa0(overrides@),
{
    let ghost all = overrides@;
    proof {
        assert(all.skip(0) =~= all);
    }
    let mut i: usize = 0;
    while i < overrides.len()
        invariant
            i <= all.len(),
            overrides@ == all,
            find_isa0(all.skip(i as int)) == find_isa0(all),
        decreases all.len() - i,
    {
        proof {
            assert(all.skip(i as int)[0] == all[i as int]);
            assert(all.skip(i as int).drop_first() =~= all.skip(i as int + 1));
        }
        let ov = overrides[i];
        if ov.isa_source == 0 {
            return Some(ov.global_system_interrupt);
        }
        i = i + 1;
    }
    proof {
        assert(all.skip(all.len() as int) =~= Seq::<IsaOverride>::empty());
    }
    None
}

/// The destination dword of the PIT's redirection entry: the boot
/// processor's Local APIC identifier placed in the destination field. In the
/// 64-bit redirection entry the destination occupies bits 56..64; the entry
/// is programmed as two 32-bit registers, so in the high dword that is bits
/// 24..32 (56 - 32).
pub open spec fn pit_dest_high(bsp_apic_id: u32) -> u32 {
    (bsp_apic_id & 0xFF) << 24
}

/// True when the I/O APIC whose first global interrupt number is `base` and
/// which offers `entries` redirection entries serves global interrupt `gsi`.
pub open spec fn gsi_covered(base: u32, entries: int, gsi: u32) -> bool {
    base <= gsi < base + entries
}

/// The value redirection register `j` of an I/O APIC with interrupt base
/// `base` holds after controller bring-up, given its prior register file
/// `before`: the entry the PIT's global interrupt `gsi` maps to is
/// programmed with the main timer vector (low dword) and the boot-processor
/// destination (high dword), left unmasked; every other entry keeps its
/// registers except that its mask bit is set.
pub open spec fn programmed_reg(base: u32, before: Seq<u32>, j: int, gsi: u32, dest_high: u32) -> u32 {
    if base + j / 2 == gsi {
        if j % 2 == 0 {
            TIMER_VECTOR as u32
        } else {
            dest_high
        }
    } else {
        if j % 2 == 0 {
            before[j] | APIC_MASKED
        } else {
            before[j]
        }
    }
}

/// True when the I/O APIC models in `news` are exactly the models of `olds`
/// after controller bring-up programmed them, entry by entry.
pub open spec fn ioapics_programmed(
    descs: Seq<IoApicDescriptor>,
    olds: Seq<IoApic>,
    news: Seq<IoApic>,
    gsi: u32,
    dest_high: u32,
) -> bool {
    &&& news.len() == olds.len()
    &&& forall|i: int|
        0 <= i < olds.len() ==> (#[trigger] news[i]).base == olds[i].base
            && news[i].redirection@.len() == olds[i].redirection@.len()
    &&& forall|i: int, j: int|
        0 <= i < olds.len() && 0 <= j < olds[i].redirection@.len() ==> (#[trigger] news[i].redirection@[j])
            == programmed_reg(
            descs[i].global_system_interrupt_base,
            olds[i].redirection@,
            j,
            gsi,
            dest_high,
        )
}

/// The operation(s) bring-up issues for redirection entry `k` of I/O APIC
/// `apic_idx`: the PIT's entry gets its two registers written, every other
/// entry gets its mask bit set by a read-modify-write.
pub open spec fn redir_entry_ops(apic_idx: int, base: u32, k: int, gsi: u32, dest_high: u32) -> Seq<
    HwOp,
> {
    let reg = (IOAPIC_FIRST_REDIR_REG + 2 * k) as u8;
    if base + k == gsi {
        seq![
            HwOp::IoApicWrite { apic: apic_idx as usize, reg, value: TIMER_VECTOR as u32 },
            HwOp::IoApicWrite { apic: apic_idx as usize, reg: (reg + 1) as u8, value: dest_high },
        ]
    } else {
        seq![HwOp::IoApicSetBits { apic: apic_idx as usize, reg, bits: APIC_MASKED }]
    }
}

/// The operations bring-up issues for the first `k` redirection entries of
/// I/O APIC `apic_idx`, in entry order.
pub open spec fn redir_ops_upto(apic_idx: int, base: u32, k: int, gsi: u32, dest_high: u32) -> Seq<
    HwOp,
>
    decreases k,
{
    if k <= 0 {
        Seq::empty()
    } else {
        redir_ops_upto(apic_idx, base, k - 1, gsi, dest_high) + redir_entry_ops(
            apic_idx,
            base,
            k - 1,
            gsi,
            dest_high,
        )
    }
}

/// The operations bring-up issues for the first `i` I/O APICs, in order.
pub open spec fn ioapic_ops_upto(
    descs: Seq<IoApicDescriptor>,
    views: Seq<IoApic>,
    i: int,
    gsi: u32,
    dest_high: u32,
) -> Seq<HwOp>
    decreases i,
{
    if i <= 0 {
        Seq::empty()
    } else {
        ioapic_ops_upto(descs, views, i - 1, gsi, dest_high) + redir_ops_upto(
            i - 1,
            descs[i - 1].global_system_interrupt_base,
            views[i - 1].redirection@.len() as int / 2,
            gsi,
            dest_high,
        )
    }
}

/// Program every redirection entry of one I/O APIC: the entry serving
/// global interrupt `gsi` (if this I/O APIC has it) gets the main timer
/// vector and the boot-processor destination; every other entry gets its
/// mask bit set. Returns the redirection register of the matching entry.
fn program_one_ioapic(
    a: &mut IoApic,
    apic_idx: usize,
    base: u32,
    gsi: u32,
    dest_high: u32,
    ops: &mut Vec<HwOp>,
) -> (found: Option<u8>)
    requires
        old(a).redirection@.len() % 2 == 0,
        old(a).redirection@.len() <= 238,
    ensures
        final(a).base == old(a).base,
        final(a).redirection@.len() == old(a).redirection@.len(),
        forall|j: int|
            0 <= j < old(a).redirection@.len() ==> (#[trigger] final(a).redirection@[j])
                == programmed_reg(base, old(a).redirection@, j, gsi, dest_high),
        final(ops)@ == old(ops)@ + redir_ops_upto(
            apic_idx as int,
            base,
            old(a).redirection@.len() as int / 2,
            gsi,
            dest_high,
        ),
        found is Some <==> gsi_covered(base, old(a).redirection@.len() as int / 2, gsi),
        found is Some ==> found.unwrap() == IOAPIC_FIRST_REDIR_REG + 2 * (gsi - base),
{
    let ghost ops0 = ops@;
    let ghost v0 = a.redirection@;
    let count: usize = a.redirection.len() / 2;
    let mut found: Option<u8> = None;
    let mut idx: usize = 0;
    proof {
        assert(ops@ =~= ops0 + redir_ops_upto(apic_idx as int, base, 0, gsi, dest_high));
    }
    while idx < count
        invariant
            idx <= count,
            count == v0.len() / 2,
            v0.len() % 2 == 0,
            v0.len() <= 238,
            a.base == old(a).base,
            a.redirection@.len() == v0.len(),
            forall|j: int|
                0 <= j < 2 * idx ==> (#[trigger] a.redirection@[j]) == programmed_reg(
                    base,
                    v0,
                    j,
                    gsi,
                    dest_high,
                ),
            forall|j: int| 2 * idx <= j < v0.len() ==> (#[trigger] a.redirection@[j]) == v0[j],
            ops@ == ops0 + redir_ops_upto(apic_idx as int, base, idx as int, gsi, dest_high),
            found is Some <==> gsi_covered(base, idx as int, gsi),
            found is Some ==> found.unwrap() == IOAPIC_FIRST_REDIR_REG + 2 * (gsi - base),
        decreases count - idx,
    {
        let reg: u8 = IOAPIC_FIRST_REDIR_REG + (idx as u8) * 2;
        if (base as u64) + (idx as u64) == gsi as u64 {
            a.write_register(reg, TIMER_VECTOR as u32);
            a.write_register(reg + 1, dest_high);
            ops.push(HwOp::IoApicWrite { apic: apic_idx, reg, value: TIMER_VECTOR as u32 });
            ops.push(HwOp::IoApicWrite { apic: apic_idx, reg: reg + 1, value: dest_high });
            found = Some(reg);
        } else {
            a.set_bits(reg, APIC_MASKED);
            ops.push(HwOp::IoApicSetBits { apic: apic_idx, reg, bits: APIC_MASKED });
        }
        proof {
            assert(ops@ =~= ops0 + redir_ops_upto(
                apic_idx as int,
                base,
                idx as int + 1,
                gsi,
                dest_high,
            ));
        }
        idx = idx + 1;
    }
    found
}

/// The result of I/O APIC bring-up: where the PIT's redirection entry
/// lives — calibration owns masking and unmasking of that one entry — and
/// the register operations that programmed every I/O APIC.
#[derive(Clone, PartialEq, Eq, Debug)]
pub struct TimerRedirection {
    /// Index of the I/O APIC holding the PIT's redirection entry.
    pub apic: usize,
    /// Redirection register (low dword) of the PIT's entry.
    pub reg: u8,
    /// The operations that programmed the I/O APICs, in issue order.
    pub ops: Vec<HwOp>,
}

/// Program the I/O APICs for bring-up: the redirection entry that legacy
/// ISA interrupt 0 (the PIT) was remapped to is pointed at the periodic
/// timer vector and the boot processor; every other redirection entry of
/// every I/O APIC is masked. The models in `ioapics` must be aligned with
/// `platform.io_apics`, one view per descriptor; they are updated to the
/// programmed state, and the same programming is returned as an operation
/// list for the driver to replay.
pub fn init_ioapic(platform: &PlatformDescription, ioapics: &mut Vec<IoApic>) -> (r: Result<
    TimerRedirection,
    ConfigError,
>)
    requires
        old(ioapics)@.len() == platform.io_apics@.len(),
        forall|i: int|
            0 <= i < old(ioapics)@.len() ==> (#[trigger] old(ioapics)@[i]).redirection@.len() % 2
                == 0 && old(ioapics)@[i].redirection@.len() <= 238,
    ensures
        !platform.apic_available ==> r == Err::<TimerRedirection, ConfigError>(
            ConfigError::UnknownInterruptModel,
        ) && *final(ioapics) == *old(ioapics),
        platform.apic_available && find_isa0(platform.interrupt_source_overrides@) is None ==> r
            == Err::<TimerRedirection, ConfigError>(ConfigError::NoIsaTimerOverride)
            && *final(ioapics) == *old(ioapics),
        platform.apic_available && find_isa0(platform.interrupt_source_overrides@) is Some
            && platform.boot_processor_apic_id is None ==> r == Err::<
            TimerRedirection,
            ConfigError,
        >(ConfigError::NoProcessorInfo) && *final(ioapics) == *old(ioapics),
        platform.apic_available && find_isa0(platform.interrupt_source_overrides@) is Some
            && platform.boot_processor_apic_id is Some ==> ({
            let gsi = find_isa0(platform.interrupt_source_overrides@).unwrap();
            let dest_high = pit_dest_high(platform.boot_processor_apic_id.unwrap());
            &&& ioapics_programmed(
                platform.io_apics@,
                old(ioapics)@,
                final(ioapics)@,
                gsi,
                dest_high,
            )
            &&& ((exists|i: int|
                0 <= i < old(ioapics)@.len() && gsi_covered(
                    platform.io_apics@[i].global_system_interrupt_base,
                    (#[trigger] old(ioapics)@[i]).redirection@.len() as int / 2,
                    gsi,
                )) <==> r is Ok)
            &&& (!(r is Ok) ==> r == Err::<TimerRedirection, ConfigError>(
                ConfigError::NoTimerRedirectionEntry,
            ))
            &&& (r is Ok ==> ({
                let t = r.unwrap();
                &&& t.apic < old(ioapics)@.len()
                &&& gsi_covered(
                    platform.io_apics@[t.apic as int].global_system_interrupt_base,
                    old(ioapics)@[t.apic as int].redirection@.len() as int / 2,
                    gsi,
                )
                &&& forall|j: int|
                    t.apic < j < old(ioapics)@.len() ==> !gsi_covered(
                        platform.io_apics@[j].global_system_interrupt_base,
                        (#[trigger] old(ioapics)@[j]).redirection@.len() as int / 2,
                        gsi,
                    )
                &&& t.reg == IOAPIC_FIRST_REDIR_REG + 2 * (gsi
                    - platform.io_apics@[t.apic as int].global_system_interrupt_base)
                &&& t.ops@ == ioapic_ops_upto(
                    platform.io_apics@,
                    old(ioapics)@,
                    old(ioapics)@.len() as int,
                    gsi,
                    dest_high,
                )
            }))
        }),
{
    if !platform.apic_available {
        return Err(ConfigError::UnknownInterruptModel);
    }
    let gsi: u32 = match find_isa_zero(&platform.interrupt_source_overrides) {
        None => {
            return Err(ConfigError::NoIsaTimerOverride);
        }
        Some(g) => g,
    };
    let bsp: u32 = match platform.boot_processor_apic_id {
        None => {
            return Err(ConfigError::NoProcessorInfo);
        }
        Some(b) => b,
    };
    let dest_high: u32 = (bsp & 0xFF) << 24;
    let ghost descs = platform.io_apics@;
    let ghost v0 = ioapics@;
    let mut ops: Vec<HwOp> = Vec::new();
    let mut found: bool = false;
    let mut pit_apic: usize = 0;
    let mut pit_reg: u8 = 0;
    let n: usize = ioapics.len();
    proof {
        assert(ops@ =~= ioapic_ops_upto(descs, v0, 0, gsi, dest_high));
    }
    let mut i: usize = 0;
    while i < n
        invariant
            i <= n,
            n == v0.len(),
            v0 == old(ioapics)@,
            descs == platform.io_apics@,
            descs.len() == v0.len(),
            forall|i2: int|
                0 <= i2 < n ==> (#[trigger] v0[i2]).redirection@.len() % 2 == 0
                    && v0[i2].redirection@.len() <= 238,
            ioapics@.len() == n,
            forall|i2: int|
                0 <= i2 < n ==> (#[trigger] ioapics@[i2]).base == v0[i2].base
                    && ioapics@[i2].redirection@.len() == v0[i2].redirection@.len(),
            forall|i2: int| i <= i2 < n ==> ioapics@[i2] == v0[i2],
            forall|i2: int, j: int|
                0 <= i2 < i && 0 <= j < v0[i2].redirection@.len() ==> (
                #[trigger] ioapics@[i2].redirection@[j]) == programmed_reg(
                    descs[i2].global_system_interrupt_base,
                    v0[i2].redirection@,
                    j,
                    gsi,
                    dest_high,
                ),
            ops@ == ioapic_ops_upto(descs, v0, i as int, gsi, dest_high),
            found <==> (exists|i2: int|
                0 <= i2 < i && gsi_covered(
                    descs[i2].global_system_interrupt_base,
                    (#[trigger] v0[i2]).redirection@.len() as int / 2,
                    gsi,
                )),
            found ==> pit_apic < i && gsi_covered(
                descs[pit_apic as int].global_system_interrupt_base,
                v0[pit_apic as int].redirection@.len() as int / 2,
                gsi,
            ) && pit_reg == IOAPIC_FIRST_REDIR_REG + 2 * (gsi
                - descs[pit_apic as int].global_system_interrupt_base),
            found ==> forall|j: int|
                pit_apic < j < i ==> !gsi_covered(
                    descs[j].global_system_interrupt_base,
                    (#[trigger] v0[j]).redirection@.len() as int / 2,
                    gsi,
                ),
        decreases n - i,
    {
        let d = platform.io_apics[i];
        let fr = program_one_ioapic(
            &mut ioapics[i],
            i,
            d.global_system_interrupt_base,
            gsi,
            dest_high,
            &mut ops,
        );
        match fr {
            Some(reg) => {
                found = true;
                pit_apic = i;
                pit_reg = reg;
            }
            None => {}
        }
        proof {
            assert(ops@ =~= ioapic_ops_upto(descs, v0, i as int + 1, gsi, dest_high));
        }
        i = i + 1;
    }
    if found {
        Ok(TimerRedirection { apic: pit_apic, reg: pit_reg, ops })
    } else {
        Err(ConfigError::NoTimerRedirectionEntry)
    }
}

/// Law: after controller bring-up, exactly one redirection entry is
/// unmasked — a low dword's mask bit is clear precisely when its entry is
/// the one the ISA-IRQ-0 remap points at — and that entry holds the
/// periodic timer vector and the boot-processor destination; every other
/// redirection entry of every I/O APIC is masked.
pub proof fn ioapic_bringup_law(
    descs: Seq<IoApicDescriptor>,
    olds: Seq<IoApic>,
    news: Seq<IoApic>,
    gsi: u32,
    dest_high: u32,
)
    requires
        ioapics_programmed(descs, olds, news, gsi, dest_high),
    ensures
        forall|i: int, j: int|
            0 <= i < olds.len() && 0 <= j < olds[i].redirection@.len() && j % 2 == 0 ==> (((
            #[trigger] news[i].redirection@[j]) & APIC_MASKED == 0)
                <==> descs[i].global_system_interrupt_base + j / 2 == gsi),
        forall|i: int, j: int|
            0 <= i < olds.len() && 0 <= j < olds[i].redirection@.len() && j % 2 == 0
                && descs[i].global_system_interrupt_base + j / 2 == gsi ==> (
            #[trigger] news[i].redirection@[j]) == TIMER_VECTOR as u32,
        forall|i: int, j: int|
            0 <= i < olds.len() && 0 <= j < olds[i].redirection@.len() && j % 2 == 1
                && descs[i].global_system_interrupt_base + j / 2 == gsi ==> (
            #[trigger] news[i].redirection@[j]) == dest_high,
{
    assert((TIMER_VECTOR as u32) & APIC_MASKED == 0) by (bit_vector);
    assert(forall|x: u32| ((x | APIC_MASKED) & APIC_MASKED) != 0) by (bit_vector);
}

} // verus!
