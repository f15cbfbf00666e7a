//! Reset controller: soft resets of the CPU cores and CPU subsystems.
use crate::mmio::{bits_rw, read_at, read_next, BusOp, Mmio, RegisterBus};
use vstd::prelude::*;

verus! {

pub const RSTC_BASE: usize = 0x0300_3000;

pub const SOFT_RSTN_0: usize = 0x000;

pub const SOFT_RSTN_1: usize = 0x004;

pub const SOFT_RSTN_2: usize = 0x008;

pub const SOFT_RSTN_3: usize = 0x00c;

/// Auto-clearing CPU resets: cores in bits 0 to 3, subsystems in bits 4 to 6.
pub const SOFT_CPUAC_RSTN: usize = 0x020;

/// CPU resets (active low): cores in bits 0 to 3, subsystems in bits 4 to 6.
pub const SOFT_CPU_RSTN: usize = 0x024;

/// The reset controller.
#[derive(Debug, Clone, Copy)]
pub struct Rstc {
    base: usize,
}

impl Rstc {
    pub closed spec fn base(&self) -> usize {
        self.base
    }

    /// The controller at its SoC address.
    pub fn new() -> (r: Self)
        ensures
            r.base() == RSTC_BASE,
    {
        Rstc { base: RSTC_BASE }
    }

    /// The controller at `base`.
    pub fn from_base_address(base: usize) -> (r: Self)
        ensures
            r.base() == base,
    {
        Rstc { base }
    }

    /// Holds CPU core `core` in reset.
    pub fn assert_cpu_core_reset<B: RegisterBus>(&self, mmio: &mut Mmio<B>, core: u8)
        requires
            core < 32,
        ensures
            bits_rw(old(mmio).trace(), final(mmio).trace(), self.base(), SOFT_CPU_RSTN, 1u32 << core, false),
    {
        mmio.update_bits32(self.base, SOFT_CPU_RSTN, 1u32 << core, false);
    }

    /// Releases CPU core `core` from reset.
    pub fn release_cpu_core_reset<B: RegisterBus>(&self, mmio: &mut Mmio<B>, core: u8)
        requires
            core < 32,
        ensures
            bits_rw(old(mmio).trace(), final(mmio).trace(), self.base(), SOFT_CPU_RSTN, 1u32 << core, true),
    {
        mmio.update_bits32(self.base, SOFT_CPU_RSTN, 1u32 << core, true);
    }

    /// Holds CPU subsystem `sys` in reset.
    pub fn assert_cpu_sys_reset<B: RegisterBus>(&self, mmio: &mut Mmio<B>, sys: u8)
        requires
            sys < 28,
        ensures
            bits_rw(old(mmio).trace(), final(mmio).trace(), self.base(), SOFT_CPU_RSTN, 1u32 << (4 + sys), false),
    {
        mmio.update_bits32(self.base, SOFT_CPU_RSTN, 1u32 << (4 + sys), false);
    }

    /// Releases CPU subsystem `sys` from reset.
    pub fn release_cpu_sys_reset<B: RegisterBus>(&self, mmio: &mut Mmio<B>, sys: u8)
        requires
            sys < 28,
        ensures
            bits_rw(old(mmio).trace(), final(mmio).trace(), self.base(), SOFT_CPU_RSTN, 1u32 << (4 + sys), true),
    {
        mmio.update_bits32(self.base, SOFT_CPU_RSTN, 1u32 << (4 + sys), true);
    }

    /// Pulses the auto-clearing reset of CPU core `core`.
    pub fn trigger_cpu_core_auto_reset<B: RegisterBus>(&self, mmio: &mut Mmio<B>, core: u8)
        requires
            core < 32,
        ensures
            bits_rw(old(mmio).trace(), final(mmio).trace(), self.base(), SOFT_CPUAC_RSTN, 1u32 << core, false),
    {
        mmio.update_bits32(self.base, SOFT_CPUAC_RSTN, 1u32 << core, false);
    }

    /// Pulses the auto-clearing reset of CPU subsystem `sys`.
    pub fn trigger_cpu_sys_auto_reset<B: RegisterBus>(&self, mmio: &mut Mmio<B>, sys: u8)
        requires
            sys < 28,
        ensures
            bits_rw(old(mmio).trace(), final(mmio).trace(), self.base(), SOFT_CPUAC_RSTN, 1u32 << (4 + sys), false),
    {
        mmio.update_bits32(self.base, SOFT_CPUAC_RSTN, 1u32 << (4 + sys), false);
    }

    /// The CPU reset register.
    pub fn read_soft_cpu_rstn<B: RegisterBus>(&self, mmio: &mut Mmio<B>) -> (v: u32)
        ensures
            read_next(old(mmio).trace(), final(mmio).trace(), self.base(), SOFT_CPU_RSTN),
            v == read_at(final(mmio).trace(), old(mmio).trace().len() as int),
    {
        let v = mmio.read32(self.base, SOFT_CPU_RSTN);
        assert(read_at(mmio.trace(), old(mmio).trace().len() as int) == v);
        v
    }

    /// Writes the CPU reset register.
    pub fn write_soft_cpu_rstn<B: RegisterBus>(&self, mmio: &mut Mmio<B>, value: u32)
        ensures
            final(mmio).trace() == old(mmio).trace().push(BusOp::Write32 { base: self.base(), offset: SOFT_CPU_RSTN, value }),
    {
        mmio.write32(self.base, SOFT_CPU_RSTN, value);
    }

    /// The auto-clearing CPU reset register.
    pub fn read_soft_cpuac_rstn<B: RegisterBus>(&self, mmio: &mut Mmio<B>) -> (v: u32)
        ensures
            read_next(old(mmio).trace(), final(mmio).trace(), self.base(), SOFT_CPUAC_RSTN),
            v == read_at(final(mmio).trace(), old(mmio).trace().len() as int),
    {
        let v = mmio.read32(self.base, SOFT_CPUAC_RSTN);
        assert(read_at(mmio.trace(), old(mmio).trace().len() as int) == v);
        v
    }

    /// Writes the auto-clearing CPU reset register.
    pub fn write_soft_cpuac_rstn<B: RegisterBus>(&self, mmio: &mut Mmio<B>, value: u32)
        ensures
            final(mmio).trace() == old(mmio).trace().push(BusOp::Write32 { base: self.base(), offset: SOFT_CPUAC_RSTN, value }),
    {
        mmio.write32(self.base, SOFT_CPUAC_RSTN, value);
    }

    /// Base address of the registers.
    pub fn regs(&self) -> (b: usize)
        ensures
            b == self.base(),
    {
        self.base
    }
}

} // verus!
