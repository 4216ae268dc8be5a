//! Bring-up and timekeeping core of a minimal x86_64 kernel, modelled as
//! verified protocol logic over plain data.
//!
//! Hardware itself (MMIO register windows, port I/O, the interrupt flag) sits
//! outside this crate; the modules here compute exactly which register writes
//! the bring-up protocol performs, in which order, and what the resulting
//! device state is, so that the thin unverified driver layer only replays
//! operation lists and feeds readings back in.

pub mod apic;
pub mod bitmap;
pub mod draw;
pub mod interrupts;
pub mod mem;
pub mod setup;
pub mod time;
