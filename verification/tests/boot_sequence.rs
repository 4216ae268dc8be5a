//! The double-fault path and the end-to-end simulated boot sequence.

use bringup::apic::init_ioapic;
use bringup::apic::init_lapic;
use bringup::apic::ioapic_view;
use bringup::apic::lapic_apply_all;
use bringup::apic::IoApicDescriptor;
use bringup::apic::IsaOverride;
use bringup::apic::PlatformDescription;
use bringup::apic::APIC_MASKED;
use bringup::apic::APIC_TIMER_PERIODIC;
use bringup::apic::SVR_SOFTWARE_ENABLE;
use bringup::interrupts::breakpoint_handler;
use bringup::interrupts::build_gdt;
use bringup::interrupts::build_idt;
use bringup::interrupts::build_tss;
use bringup::interrupts::dispatch;
use bringup::interrupts::double_fault_handler;
use bringup::interrupts::page_fault_handler;
use bringup::interrupts::scratch_timer_interrupt_handler;
use bringup::interrupts::timer_interrupt_handler;
use bringup::interrupts::HandlerKind;
use bringup::interrupts::HandlerOutcome;
use bringup::interrupts::DOUBLE_FAULT_STACK_SIZE;
use bringup::interrupts::DOUBLE_FAULT_VECTOR;
use bringup::setup::BootSequence;
use bringup::setup::BootStage;
use bringup::time::init;
use bringup::time::Mapper;
use bringup::time::TickCounter;

#[test]
fn descriptor_tables_bind_every_handler() {
    let idt = build_idt();
    assert_eq!(idt.entries.len(), 256);
    assert!(matches!(idt.entries[3].handler, HandlerKind::Breakpoint));
    assert!(matches!(idt.entries[8].handler, HandlerKind::DoubleFault));
    assert_eq!(idt.entries[8].stack_index, Some(0));
    assert!(matches!(idt.entries[14].handler, HandlerKind::PageFault));
    assert!(matches!(idt.entries[32].handler, HandlerKind::Timer));
    assert!(matches!(idt.entries[33].handler, HandlerKind::ScratchTimer));
    assert!(matches!(idt.entries[64].handler, HandlerKind::Missing));
    let selectors = build_gdt();
    assert_ne!(selectors.code_selector, selectors.tss_selector);
}

#[test]
fn simulated_double_fault_runs_on_the_reserved_stack_and_never_returns() {
    let reserved_base: u64 = 0x4000_0000;
    let tss = build_tss(reserved_base, DOUBLE_FAULT_STACK_SIZE);
    let idt = build_idt();
    // The normal kernel stack lives elsewhere entirely.
    let normal_stack: u64 = 0x7FFF_0000;
    let (stack, handler) = dispatch(&idt, &tss, DOUBLE_FAULT_VECTOR, normal_stack);
    assert_eq!(stack, reserved_base + DOUBLE_FAULT_STACK_SIZE);
    assert_ne!(stack, normal_stack);
    assert!(matches!(handler, HandlerKind::DoubleFault));
    // The double-fault service halts: the faulting context never resumes.
    assert!(matches!(double_fault_handler(), HandlerOutcome::Halt));
    assert!(matches!(page_fault_handler(), HandlerOutcome::Halt));
    assert!(matches!(breakpoint_handler(), HandlerOutcome::Resume));
}

#[test]
fn breakpoint_dispatch_uses_the_interrupted_stack() {
    let tss = build_tss(0x4000_0000, DOUBLE_FAULT_STACK_SIZE);
    let idt = build_idt();
    let (stack, handler) = dispatch(&idt, &tss, 3, 0x7FFF_0000);
    assert_eq!(stack, 0x7FFF_0000);
    assert!(matches!(handler, HandlerKind::Breakpoint));
}

#[test]
fn boot_sequence_completes_on_a_well_formed_platform() {
    // Boot sequence order: translator -> descriptor tables -> controllers
    // -> calibration -> interrupts enabled, with no fatal errors on a
    // well-formed simulated platform description.
    let mut boot = BootSequence::new();
    assert!(matches!(boot.stage, BootStage::Start));

    // Address translator ready.
    let mapper = Mapper::new(0xFFFF_8000_0000_0000);
    boot.translator_ready();

    // Descriptor tables built and loaded.
    let tss = build_tss(0x4000_0000, DOUBLE_FAULT_STACK_SIZE);
    let idt = build_idt();
    assert_eq!(idt.entries.len(), 256);
    assert_eq!(tss.interrupt_stack_table.len(), 7);
    boot.descriptor_tables_loaded();

    // Controller bring-up: PIC disabled (a pair of port writes in the
    // driver), Local APIC enabled and masked, I/O APICs programmed.
    let platform = PlatformDescription {
        apic_available: true,
        local_apic_address: 0xFEE0_0000,
        io_apics: vec![IoApicDescriptor { address: 0xFEC0_0000, global_system_interrupt_base: 0 }],
        interrupt_source_overrides: vec![IsaOverride { isa_source: 0, global_system_interrupt: 2 }],
        boot_processor_apic_id: Some(0),
    };
    let (mut lapic, lapic_ops) = init_lapic(&platform, &mapper).expect("lapic bring-up");
    lapic_apply_all(&mut lapic, &lapic_ops);
    assert_ne!(lapic.svr & SVR_SOFTWARE_ENABLE, 0);
    assert_eq!(lapic.lvt_timer, APIC_MASKED);
    let mut views = vec![ioapic_view(&mapper, 0xFEC0_0000, 23u32 << 16)];
    let red = init_ioapic(&platform, &mut views).expect("ioapic bring-up");
    assert_eq!(views[0].redirection[2 * 2], 32); // PIT entry armed, unmasked
    boot.controllers_ready();

    // Calibration: PIT armed, two tick-counter edges observed, the Local
    // APIC count read, the constant stored, the PIT retired, and the
    // periodic mode armed with the constant.
    let (mut cal, start_ops) = init(red.apic, red.reg);
    lapic_apply_all(&mut lapic, &start_ops);
    let mut counter = TickCounter::new();
    let (done, _) = cal.poll_first_edge(counter.read());
    assert!(!done);
    let mut scratch = TickCounter::new();
    timer_interrupt_handler(&mut counter, &mut lapic); // first PIT edge
    let (done, arm_ops) = cal.poll_first_edge(counter.read());
    assert!(done);
    lapic_apply_all(&mut lapic, &arm_ops);
    assert_eq!(lapic.timer_currcnt, u32::MAX);
    scratch_timer_interrupt_handler(&mut scratch, &mut lapic);
    lapic.timer_currcnt = u32::MAX - 98_765; // the armed timer counts down
    timer_interrupt_handler(&mut counter, &mut lapic); // second PIT edge
    let (done, stop_ops) = cal.poll_second_edge(counter.read());
    assert!(done);
    lapic_apply_all(&mut lapic, &stop_ops);
    let (constant, finish_ops) = cal.finish(lapic.timer_currcnt);
    assert_eq!(constant, 98_765);
    lapic_apply_all(&mut lapic, &finish_ops);
    assert_eq!(lapic.lvt_timer, 32 | APIC_TIMER_PERIODIC);
    assert_eq!(lapic.timer_initcnt, constant);
    boot.calibrated();

    // Interrupts enabled: bring-up complete; every acknowledged interrupt
    // sent its end-of-interrupt.
    boot.interrupts_enabled();
    assert!(matches!(boot.stage, BootStage::Complete));
    assert_eq!(counter.read(), 2);
    assert_eq!(scratch.read(), 1);
    assert_eq!(lapic.eoi_count, 3);
}
