//! Interrupt vectors, the interrupt-service logic, and the descriptor-table
//! bring-up model: task-state segment with its reserved double-fault stack,
//! global descriptor table, and the vector-to-handler dispatch table.

use vstd::prelude::*;

use crate::apic::Lapic;
use crate::time::TickCounter;

verus! {

/// First vector the remapped legacy PIC would deliver to (never unmasked).
pub const PIC_1_OFFSET: u8 = 32;

/// First vector of the second legacy PIC in the chained pair.
pub const PIC_2_OFFSET: u8 = PIC_1_OFFSET + 8;

/// Vector of the periodic timer interrupt driving the main tick counter.
pub const TIMER_VECTOR: u8 = 32;

/// Vector reserved for the calibration-only scratch timer interrupt.
pub const SCRATCH_TIMER_VECTOR: u8 = 33;

/// The externally driven interrupt lines this kernel listens on.
#[derive(Clone, Copy, PartialEq, Eq, Structural, Debug)]
pub enum InterruptIndex {
    /// The periodic timer interrupt.
    Timer,
    /// The calibration-only scratch timer interrupt.
    ScratchTimer,
}

/// The vector number an interrupt line is delivered on.
pub open spec fn vector_of(i: InterruptIndex) -> u8 {
    match i {
        InterruptIndex::Timer => TIMER_VECTOR,
        InterruptIndex::ScratchTimer => SCRATCH_TIMER_VECTOR,
    }
}

impl InterruptIndex {
    /// The vector number of this interrupt line.
    pub fn as_u8(&self) -> (r: u8)
        ensures
            r == vector_of(*self),
    {
        match self {
            InterruptIndex::Timer => TIMER_VECTOR,
            InterruptIndex::ScratchTimer => SCRATCH_TIMER_VECTOR,
        }
    }
}

/// What a fault handler does with the interrupted context when it is done.
#[derive(Clone, Copy, PartialEq, Eq, Structural, Debug)]
pub enum HandlerOutcome {
    /// The handler returns and the faulting context resumes.
    Resume,
    /// The handler halts the processor forever; the context never resumes.
    Halt,
}

/// Breakpoint exception service: the frame is reported and execution resumes.
pub fn breakpoint_handler() -> (r: HandlerOutcome)
    ensures
        r == HandlerOutcome::Resume,
{
    HandlerOutcome::Resume
}

/// Double-fault service: unrecoverable by design; the processor halts after
/// the captured state is reported, and the faulting context never resumes.
pub fn double_fault_handler() -> (r: HandlerOutcome)
    ensures
        r == HandlerOutcome::Halt,
{
    HandlerOutcome::Halt
}

/// Page-fault service: this kernel has no recovery policy, so every page
/// fault is fatal and the processor halts after the fault is reported.
pub fn page_fault_handler() -> (r: HandlerOutcome)
    ensures
        r == HandlerOutcome::Halt,
{
    HandlerOutcome::Halt
}

/// Periodic timer service: advance the main tick counter by one step
/// (wraparound-safe) and acknowledge the interrupt, leaving every other
/// Local APIC register untouched.
pub fn timer_interrupt_handler(counter: &mut TickCounter, lapic: &mut Lapic)
    ensures
        final(counter).ticks == vstd::wrapping::u64_specs::wrapping_add(old(counter).ticks, 1),
        *final(lapic) == (Lapic {
            eoi_count: vstd::wrapping::u64_specs::wrapping_add(old(lapic).eoi_count, 1),
            ..*old(lapic)
        }),
{
    counter.increment();
    lapic.end_of_interrupt();
}

/// Calibration-scratch timer service: advance the scratch counter and
/// acknowledge the interrupt; meaningful only while calibration runs.
pub fn scratch_timer_interrupt_handler(scratch: &mut TickCounter, lapic: &mut Lapic)
    ensures
        final(scratch).ticks == vstd::wrapping::u64_specs::wrapping_add(old(scratch).ticks, 1),
        *final(lapic) == (Lapic {
            eoi_count: vstd::wrapping::u64_specs::wrapping_add(old(lapic).eoi_count, 1),
            ..*old(lapic)
        }),
{
    scratch.increment();
    lapic.end_of_interrupt();
}

/// Interrupt-stack-table slot reserved for the double-fault stack.
pub const DOUBLE_FAULT_IST_INDEX: u16 = 0;

/// Size in bytes of the statically reserved double-fault stack.
pub const DOUBLE_FAULT_STACK_SIZE: u64 = 4096 * 5;

/// Vector of the breakpoint exception.
pub const BREAKPOINT_VECTOR: u8 = 3;

/// Vector of the double-fault exception.
pub const DOUBLE_FAULT_VECTOR: u8 = 8;

/// Vector of the page-fault exception.
pub const PAGE_FAULT_VECTOR: u8 = 14;

/// Task-state segment model: the interrupt stack table, holding the top
/// address of each reserved stack (zero where no stack is reserved).
#[derive(Clone, PartialEq, Eq, Debug)]
pub struct Tss {
    /// Stack-top addresses, one per interrupt-stack-table slot.
    pub interrupt_stack_table: Vec<u64>,
}

/// Build the task-state segment: the double-fault slot gets the top of the
/// dedicated stack `[stack_start, stack_start + stack_size)`, which must
/// outlive the tables and alias no other stack.
pub fn build_tss(stack_start: u64, stack_size: u64) -> (r: Tss)
    requires
        stack_start + stack_size <= u64::MAX,
    ensures
        r.interrupt_stack_table@.len() == 7,
        r.interrupt_stack_table@[DOUBLE_FAULT_IST_INDEX as int] == stack_start + stack_size,
        forall|i: int|
            0 <= i < 7 && i != DOUBLE_FAULT_IST_INDEX ==> r.interrupt_stack_table@[i] == 0u64,
{
    let mut interrupt_stack_table: Vec<u64> = Vec::new();
    interrupt_stack_table.push(stack_start + stack_size);
    let mut i: usize = 1;
    while i < 7
        invariant
            1 <= i <= 7,
            interrupt_stack_table@.len() == i,
            interrupt_stack_table@[0] == stack_start + stack_size,
            forall|j: int| 1 <= j < i ==> interrupt_stack_table@[j] == 0u64,
        decreases 7 - i,
    {
        interrupt_stack_table.push(0);
        i = i + 1;
    }
    Tss { interrupt_stack_table }
}

/// The two segment selectors the descriptor table yields, read-only once
/// produced: the kernel code segment and the task-state segment.
#[derive(Clone, Copy, PartialEq, Eq, Structural, Debug)]
pub struct Selectors {
    /// Selector of the kernel code segment.
    pub code_selector: u16,
    /// Selector of the task-state segment.
    pub tss_selector: u16,
}

/// Build the global descriptor table: after the mandatory null descriptor
/// come the kernel code segment and the task-state segment, so their
/// selectors are descriptor indices 1 and 2 (each selector is its index
/// shifted past the 3 requested-privilege bits).
pub fn build_gdt() -> (r: Selectors)
    ensures
        r.code_selector == 8,
        r.tss_selector == 16,
        r.code_selector != r.tss_selector,
{
    Selectors { code_selector: 8, tss_selector: 16 }
}

/// A handler registration in the vector table.
#[derive(Clone, Copy, PartialEq, Eq, Structural, Debug)]
pub enum HandlerKind {
    /// No handler installed.
    Missing,
    /// The breakpoint service.
    Breakpoint,
    /// The double-fault service.
    DoubleFault,
    /// The page-fault service.
    PageFault,
    /// The periodic timer service.
    Timer,
    /// The calibration-scratch timer service.
    ScratchTimer,
}

/// One entry of the interrupt vector table: the handler and, optionally,
/// the interrupt-stack-table slot the processor must switch to first.
#[derive(Clone, Copy, PartialEq, Eq, Structural, Debug)]
pub struct IdtEntry {
    /// The handler bound to this vector.
    pub handler: HandlerKind,
    /// The interrupt-stack-table slot to switch to, if any.
    pub stack_index: Option<u16>,
}

/// The interrupt vector table: a fixed mapping from vector number to
/// handler entry, built once at bring-up and immutable once loaded.
#[derive(Clone, PartialEq, Eq, Debug)]
pub struct Idt {
    /// One entry per vector number.
    pub entries: Vec<IdtEntry>,
}

/// The entry `build_idt` installs at `vector`: breakpoint, page fault and
/// the two timer vectors run on the interrupted context's stack; the double
/// fault switches to the reserved stack slot.
pub open spec fn built_idt_entry(vector: int) -> IdtEntry {
    if vector == BREAKPOINT_VECTOR {
        (IdtEntry { handler: HandlerKind::Breakpoint, stack_index: None })
    } else if vector == DOUBLE_FAULT_VECTOR {
        (IdtEntry { handler: HandlerKind::DoubleFault, stack_index: Some(DOUBLE_FAULT_IST_INDEX) })
    } else if vector == PAGE_FAULT_VECTOR {
        (IdtEntry { handler: HandlerKind::PageFault, stack_index: None })
    } else if vector == TIMER_VECTOR {
        (IdtEntry { handler: HandlerKind::Timer, stack_index: None })
    } else if vector == SCRATCH_TIMER_VECTOR {
        (IdtEntry { handler: HandlerKind::ScratchTimer, stack_index: None })
    } else {
        (IdtEntry { handler: HandlerKind::Missing, stack_index: None })
    }
}

/// Build the interrupt vector table with every fault and interrupt handler
/// bound: breakpoint, double fault (on the reserved stack slot), page
/// fault, the periodic timer and the calibration-scratch timer.
pub fn build_idt() -> (r: Idt)
    ensures
        r.entries@.len() == 256,
        forall|v: int| 0 <= v < 256 ==> r.entries@[v] == built_idt_entry(v),
{
    let mut entries: Vec<IdtEntry> = Vec::new();
    let mut v: usize = 0;
    while v < 256
        invariant
            v <= 256,
            entries@.len() == v,
            forall|j: int| 0 <= j < v ==> entries@[j] == built_idt_entry(j),
        decreases 256 - v,
    {
        let entry = if v == BREAKPOINT_VECTOR as usize {
            IdtEntry { handler: HandlerKind::Breakpoint, stack_index: None }
        } else if v == DOUBLE_FAULT_VECTOR as usize {
            IdtEntry { handler: HandlerKind::DoubleFault, stack_index: Some(DOUBLE_FAULT_IST_INDEX) }
        } else if v == PAGE_FAULT_VECTOR as usize {
            IdtEntry { handler: HandlerKind::PageFault, stack_index: None }
        } else if v == TIMER_VECTOR as usize {
            IdtEntry { handler: HandlerKind::Timer, stack_index: None }
        } else if v == SCRATCH_TIMER_VECTOR as usize {
            IdtEntry { handler: HandlerKind::ScratchTimer, stack_index: None }
        } else {
            IdtEntry { handler: HandlerKind::Missing, stack_index: None }
        };
        entries.push(entry);
        v = v + 1;
    }
    Idt { entries }
}

/// The stack an interrupt on `vector` executes on: the interrupt-stack-table
/// slot named by its entry, or the interrupted context's stack when the
/// entry names none.
pub open spec fn dispatch_stack(idt: Idt, tss: Tss, vector: u8, current_stack: u64) -> u64 {
    match idt.entries@[vector as int].stack_index {
        Some(slot) => tss.interrupt_stack_table@[slot as int],
        None => current_stack,
    }
}

/// Deliver the interrupt on `vector`: the processor switches to the stack
/// its entry prescribes and runs the bound handler.
pub fn dispatch(idt: &Idt, tss: &Tss, vector: u8, current_stack: u64) -> (r: (u64, HandlerKind))
    requires
        idt.entries@.len() == 256,
        idt.entries@[vector as int].stack_index matches Some(s) ==> s
            < tss.interrupt_stack_table@.len(),
    ensures
        r.0 == dispatch_stack(*idt, *tss, vector, current_stack),
        r.1 == idt.entries@[vector as int].handler,
{
    let entry = idt.entries[vector as usize];
    let stack = match entry.stack_index {
        Some(slot) => tss.interrupt_stack_table[slot as usize],
        None => current_stack,
    };
    (stack, entry.handler)
}

/// Law: a simulated double fault executes on the reserved stack — whose top
/// is distinct from any address of the normal kernel stack — and its
/// handler halts, so the faulting context never resumes.
pub proof fn double_fault_law(
    idt: Idt,
    tss: Tss,
    stack_start: u64,
    stack_size: u64,
    normal_stack: u64,
)
    requires
        idt.entries@.len() == 256,
        idt.entries@[DOUBLE_FAULT_VECTOR as int] == built_idt_entry(DOUBLE_FAULT_VECTOR as int),
        tss.interrupt_stack_table@.len() == 7,
        tss.interrupt_stack_table@[DOUBLE_FAULT_IST_INDEX as int] == stack_start + stack_size,
        stack_start + stack_size <= u64::MAX,
        normal_stack < stack_start || normal_stack > stack_start + stack_size,
        stack_size > 0,
    ensures
        dispatch_stack(idt, tss, DOUBLE_FAULT_VECTOR, normal_stack) == stack_start + stack_size,
        dispatch_stack(idt, tss, DOUBLE_FAULT_VECTOR, normal_stack) != normal_stack,
        idt.entries@[DOUBLE_FAULT_VECTOR as int].handler == HandlerKind::DoubleFault,
{
}

} // verus!
