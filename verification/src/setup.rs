//! The boot sequence: an explicit stage machine that forces the bring-up
//! order the hardware protocol demands — address translator first, then the
//! descriptor tables, then the interrupt controllers, then timer
//! calibration, and only then interrupt delivery.

use vstd::prelude::*;

verus! {

/// How far bring-up has come.
#[derive(Clone, Copy, PartialEq, Eq, Structural, Debug)]
pub enum BootStage {
    /// Nothing brought up yet; interrupts globally disabled.
    Start,
    /// The physical-to-virtual translation offset is established.
    TranslatorReady,
    /// Descriptor tables built and loaded: task-state segment, descriptor
    /// table with reloaded selectors, and the interrupt vector table last.
    DescriptorTablesLoaded,
    /// Legacy PIC disabled; Local APIC enabled and masked; I/O APICs
    /// programmed with the PIT's redirection entry.
    ControllersReady,
    /// Local APIC timer calibrated and armed periodically; PIT retired.
    Calibrated,
    /// Interrupts globally enabled; steady-state timekeeping is running.
    Complete,
}

/// The bring-up sequencer. Each step's precondition names the stage that
/// must have been reached, so the protocol order is enforced on every
/// caller; the hardware work of each step is carried out through the
/// operation lists the other modules compute.
#[derive(Clone, Copy, PartialEq, Eq, Structural, Debug)]
pub struct BootSequence {
    /// The stage reached so far.
    pub stage: BootStage,
}

impl BootSequence {
    /// Bring-up has not started; the caller must have disabled interrupts.
    pub fn new() -> (r: Self)
        ensures
            r.stage == BootStage::Start,
    {
        BootSequence { stage: BootStage::Start }
    }

    /// The address translator is ready: its linear offset is fixed.
    pub fn translator_ready(&mut self)
        requires
            old(self).stage == BootStage::Start,
        ensures
            final(self).stage == BootStage::TranslatorReady,
    {
        self.stage = BootStage::TranslatorReady;
    }

    /// The descriptor tables are built and loaded, handlers bound; loading
    /// them requires the translator, and must precede any interrupt.
    pub fn descriptor_tables_loaded(&mut self)
        requires
            old(self).stage == BootStage::TranslatorReady,
        ensures
            final(self).stage == BootStage::DescriptorTablesLoaded,
    {
        self.stage = BootStage::DescriptorTablesLoaded;
    }

    /// Interrupt-controller bring-up is complete: PIC disabled, Local APIC
    /// enabled with its local lines masked, I/O APICs programmed.
    pub fn controllers_ready(&mut self)
        requires
            old(self).stage == BootStage::DescriptorTablesLoaded,
        ensures
            final(self).stage == BootStage::ControllersReady,
    {
        self.stage = BootStage::ControllersReady;
    }

    /// The calibration protocol has completed and stored its constant.
    pub fn calibrated(&mut self)
        requires
            old(self).stage == BootStage::ControllersReady,
        ensures
            final(self).stage == BootStage::Calibrated,
    {
        self.stage = BootStage::Calibrated;
    }

    /// Interrupts are globally enabled; bring-up is complete.
    pub fn interrupts_enabled(&mut self)
        requires
            old(self).stage == BootStage::Calibrated,
        ensures
            final(self).stage == BootStage::Complete,
    {
        self.stage = BootStage::Complete;
    }
}

} // verus!
