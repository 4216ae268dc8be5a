//! Local APIC and I/O APIC bring-up, including the fatal configuration
//! errors.

use bringup::apic::init_ioapic;
use bringup::apic::init_lapic;
use bringup::apic::ioapic_view;
use bringup::apic::lapic_apply_all;
use bringup::apic::max_redir_count;
use bringup::apic::ConfigError;
use bringup::apic::HwOp;
use bringup::apic::IoApic;
use bringup::apic::IoApicDescriptor;
use bringup::apic::IsaOverride;
use bringup::apic::Lapic;
use bringup::apic::PlatformDescription;
use bringup::apic::APIC_MASKED;
use bringup::apic::LAPIC_LVT_LINT0_REG;
use bringup::apic::LAPIC_LVT_LINT1_REG;
use bringup::apic::LAPIC_LVT_TIMER_REG;
use bringup::apic::LAPIC_SVR_REG;
use bringup::apic::SVR_SOFTWARE_ENABLE;
use bringup::time::Mapper;

fn sample_platform() -> PlatformDescription {
    PlatformDescription {
        apic_available: true,
        local_apic_address: 0xFEE0_0000,
        io_apics: vec![
            IoApicDescriptor { address: 0xFEC0_0000, global_system_interrupt_base: 0 },
            IoApicDescriptor { address: 0xFEC1_0000, global_system_interrupt_base: 24 },
        ],
        interrupt_source_overrides: vec![
            IsaOverride { isa_source: 4, global_system_interrupt: 9 },
            IsaOverride { isa_source: 0, global_system_interrupt: 2 },
        ],
        boot_processor_apic_id: Some(1),
    }
}

fn sample_views(platform: &PlatformDescription, mapper: &Mapper) -> Vec<IoApic> {
    // IOAPICVER reads: 24 entries on the first I/O APIC, 8 on the second.
    let versions = [23u32 << 16, 7u32 << 16];
    let mut views = Vec::new();
    for (i, d) in platform.io_apics.iter().enumerate() {
        views.push(ioapic_view(mapper, d.address, versions[i]));
    }
    views
}

#[test]
fn max_redir_count_reads_version_register() {
    assert_eq!(max_redir_count(23u32 << 16), 24);
    assert_eq!(max_redir_count(0), 1);
}

#[test]
fn lapic_bringup_enables_and_masks_local_lines() {
    let platform = sample_platform();
    let mapper = Mapper::new(0xFFFF_8000_0000_0000);
    let (mut lapic, ops) = init_lapic(&platform, &mapper).unwrap();
    assert_eq!(lapic.base, 0xFFFF_8000_0000_0000 + 0xFEE0_0000);
    assert_eq!(
        ops[0],
        HwOp::LapicSetBits { offset: LAPIC_SVR_REG, bits: SVR_SOFTWARE_ENABLE }
    );
    // Pretend the hardware had some spurious-vector bits set already.
    lapic.svr = 0xFF;
    lapic_apply_all(&mut lapic, &ops);
    assert_eq!(lapic.svr, 0xFF | SVR_SOFTWARE_ENABLE);
    assert_ne!(lapic.svr & SVR_SOFTWARE_ENABLE, 0);
    assert_eq!(lapic.lvt_timer, APIC_MASKED);
    assert_eq!(lapic.lvt_lint0, APIC_MASKED);
    assert_eq!(lapic.lvt_lint1, APIC_MASKED);
}

#[test]
fn lapic_bringup_rejects_unknown_interrupt_model() {
    let mut platform = sample_platform();
    platform.apic_available = false;
    let mapper = Mapper::new(0);
    assert_eq!(
        init_lapic(&platform, &mapper).unwrap_err(),
        ConfigError::UnknownInterruptModel
    );
}

#[test]
fn ioapic_bringup_unmasks_exactly_the_pit_entry() {
    let platform = sample_platform();
    let mapper = Mapper::new(0xFFFF_8000_0000_0000);
    let mut views = sample_views(&platform, &mapper);
    // Give the redirection registers arbitrary prior contents.
    for v in views.iter_mut() {
        for k in 0..v.redirection.len() {
            v.redirection[k] = 0x0000_00F7 + k as u32;
        }
    }
    let before = views.clone();
    let red = init_ioapic(&platform, &mut views).unwrap();
    // The PIT's ISA line 0 was remapped to global interrupt 2, which the
    // first I/O APIC serves at redirection entry 2.
    assert_eq!(red.apic, 0);
    assert_eq!(red.reg, 0x10 + 2 * 2);
    // Exactly one redirection entry is unmasked and it holds the periodic
    // timer vector; the destination is the boot processor in the high bits
    // of the destination dword; all other entries are masked with their
    // other bits preserved.
    let mut unmasked = 0;
    for (i, v) in views.iter().enumerate() {
        let entries = v.redirection.len() / 2;
        for e in 0..entries {
            let low = v.redirection[2 * e];
            let high = v.redirection[2 * e + 1];
            let gsi = platform.io_apics[i].global_system_interrupt_base + e as u32;
            if gsi == 2 {
                assert_eq!(low, 32, "PIT entry holds the timer vector, unmasked");
                assert_eq!(high, 1u32 << 24, "destination field holds the boot processor");
                unmasked += 1;
            } else {
                assert_ne!(low & APIC_MASKED, 0, "entry {e} of I/O APIC {i} is masked");
                assert_eq!(low, before[i].redirection[2 * e] | APIC_MASKED);
                assert_eq!(high, before[i].redirection[2 * e + 1]);
            }
        }
    }
    assert_eq!(unmasked, 1);
    // The returned operations program the same state on the hardware.
    assert!(red.ops.contains(&HwOp::IoApicWrite { apic: 0, reg: 0x14, value: 32 }));
    assert!(red.ops.contains(&HwOp::IoApicWrite { apic: 0, reg: 0x15, value: 1u32 << 24 }));
    let rmw = red
        .ops
        .iter()
        .filter(|op| matches!(op, HwOp::IoApicSetBits { .. }))
        .count();
    assert_eq!(rmw, 24 + 8 - 1);
}

#[test]
fn ioapic_bringup_rejects_unknown_interrupt_model() {
    let mut platform = sample_platform();
    platform.apic_available = false;
    let mut views = Vec::new();
    assert_eq!(
        init_ioapic(&platform, &mut views).unwrap_err(),
        ConfigError::UnknownInterruptModel
    );
}

#[test]
fn ioapic_bringup_rejects_missing_isa_timer_override() {
    let mut platform = sample_platform();
    platform.interrupt_source_overrides =
        vec![IsaOverride { isa_source: 4, global_system_interrupt: 9 }];
    let mapper = Mapper::new(0);
    let mut views = sample_views(&platform, &mapper);
    assert_eq!(
        init_ioapic(&platform, &mut views).unwrap_err(),
        ConfigError::NoIsaTimerOverride
    );
}

#[test]
fn ioapic_bringup_rejects_missing_processor_info() {
    let mut platform = sample_platform();
    platform.boot_processor_apic_id = None;
    let mapper = Mapper::new(0);
    let mut views = sample_views(&platform, &mapper);
    assert_eq!(
        init_ioapic(&platform, &mut views).unwrap_err(),
        ConfigError::NoProcessorInfo
    );
}

#[test]
fn ioapic_bringup_rejects_unserved_timer_interrupt() {
    let mut platform = sample_platform();
    // Remap the PIT to a global interrupt no I/O APIC serves.
    platform.interrupt_source_overrides =
        vec![IsaOverride { isa_source: 0, global_system_interrupt: 99 }];
    let mapper = Mapper::new(0);
    let mut views = sample_views(&platform, &mapper);
    assert_eq!(
        init_ioapic(&platform, &mut views).unwrap_err(),
        ConfigError::NoTimerRedirectionEntry
    );
}

#[test]
fn destination_field_truncates_to_eight_bits() {
    let mut platform = sample_platform();
    platform.boot_processor_apic_id = Some(0x1FF);
    let mapper = Mapper::new(0);
    let mut views = sample_views(&platform, &mapper);
    let red = init_ioapic(&platform, &mut views).unwrap();
    assert!(red
        .ops
        .contains(&HwOp::IoApicWrite { apic: 0, reg: 0x15, value: 0xFFu32 << 24 }));
}

#[test]
fn lapic_register_model_round_trips() {
    let mut lapic = Lapic::new(0);
    lapic.write_register(LAPIC_LVT_TIMER_REG, 0x33);
    lapic.write_register(LAPIC_LVT_LINT0_REG, APIC_MASKED);
    lapic.write_register(LAPIC_LVT_LINT1_REG, APIC_MASKED);
    assert_eq!(lapic.read_register(LAPIC_LVT_TIMER_REG), 0x33);
    assert_eq!(lapic.read_register(LAPIC_LVT_LINT0_REG), APIC_MASKED);
    let before = lapic.eoi_count;
    lapic.end_of_interrupt();
    assert_eq!(lapic.eoi_count, before + 1);
}
