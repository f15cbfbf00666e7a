//! Secondary (small) CPU core control: enable, boot address and start.
use crate::mmio::{bits_rw, field, read_at, read_next, BusOp, Mmio, RegisterBus};
use crate::rstc::{Rstc, RSTC_BASE, SOFT_CPU_RSTN};
pub use crate::soc::SEC_SYS_BASE;
use vstd::prelude::*;

verus! {

/// `SEC_SYS_CTRL`, whose bit 13 enables the secondary CPU.
pub const SEC_SYS_CTRL: usize = 0x004;

pub const SEC_CPU_EN: u32 = 0x2000;

pub const SEC_SYS_BOOT_ADDR_L: usize = 0x020;

pub const SEC_SYS_BOOT_ADDR_H: usize = 0x024;

/// The CPU subsystem of the secondary core in the reset controller.
pub const SECONDARY_CPU_SYS: u8 = 2;

/// The security subsystem registers that start the secondary core.
#[derive(Debug, Clone, Copy)]
pub struct SecSys {
    base: usize,
}

impl SecSys {
    pub closed spec fn base(&self) -> usize {
        self.base
    }

    /// The registers at `base`.
    pub fn new(base: usize) -> (s: Self)
        ensures
            s.base() == base,
    {
        SecSys { base }
    }

    /// Sets `SEC_CPU_EN`.
    pub fn enable_secondary_cpu<B: RegisterBus>(&self, mmio: &mut Mmio<B>)
        ensures
            bits_rw(old(mmio).trace(), final(mmio).trace(), self.base(), SEC_SYS_CTRL, SEC_CPU_EN, true),
    {
        mmio.update_bits32(self.base, SEC_SYS_CTRL, SEC_CPU_EN, true);
    }

    /// Clears `SEC_CPU_EN`.
    pub fn disable_secondary_cpu<B: RegisterBus>(&self, mmio: &mut Mmio<B>)
        ensures
            bits_rw(old(mmio).trace(), final(mmio).trace(), self.base(), SEC_SYS_CTRL, SEC_CPU_EN, false),
    {
        mmio.update_bits32(self.base, SEC_SYS_CTRL, SEC_CPU_EN, false);
    }

    /// Whether `SEC_CPU_EN` is set.
    pub fn is_secondary_cpu_enabled<B: RegisterBus>(&self, mmio: &mut Mmio<B>) -> (b: bool)
        ensures
            read_next(old(mmio).trace(), final(mmio).trace(), self.base(), SEC_SYS_CTRL),
            b == (read_at(final(mmio).trace(), old(mmio).trace().len() as int) & SEC_CPU_EN != 0),
    {
        let v = mmio.read32(self.base, SEC_SYS_CTRL);
        assert(read_at(mmio.trace(), old(mmio).trace().len() as int) == v);
        v & SEC_CPU_EN != 0
    }

    /// Sets the 64-bit boot address: low word, then high word.
    pub fn set_boot_address<B: RegisterBus>(&self, mmio: &mut Mmio<B>, addr: u64)
        ensures
            final(mmio).trace() == old(mmio).trace() + seq![
                BusOp::Write32 { base: self.base(), offset: SEC_SYS_BOOT_ADDR_L, value: addr as u32 },
                BusOp::Write32 { base: self.base(), offset: SEC_SYS_BOOT_ADDR_H, value: (addr >> 32u64) as u32 },
            ],
    {
        mmio.write32(self.base, SEC_SYS_BOOT_ADDR_L, addr as u32);
        mmio.write32(self.base, SEC_SYS_BOOT_ADDR_H, (addr >> 32u64) as u32);
        assert(mmio.trace() =~= old(mmio).trace() + seq![
            BusOp::Write32 { base: self.base, offset: SEC_SYS_BOOT_ADDR_L, value: addr as u32 },
            BusOp::Write32 { base: self.base, offset: SEC_SYS_BOOT_ADDR_H, value: (addr >> 32u64) as u32 },
        ]);
    }

    /// The 64-bit boot address.
    pub fn get_boot_address<B: RegisterBus>(&self, mmio: &mut Mmio<B>) -> (a: u64)
        ensures
            final(mmio).trace().len() == old(mmio).trace().len() + 2,
            final(mmio).trace() == old(mmio).trace() + seq![
                BusOp::Read32 { base: self.base(), offset: SEC_SYS_BOOT_ADDR_L, value: read_at(final(mmio).trace(), old(mmio).trace().len() as int) },
                BusOp::Read32 { base: self.base(), offset: SEC_SYS_BOOT_ADDR_H, value: read_at(final(mmio).trace(), old(mmio).trace().len() + 1int) },
            ],
            a == ((read_at(final(mmio).trace(), old(mmio).trace().len() + 1int) as u64) << 32u64) | (read_at(final(mmio).trace(), old(mmio).trace().len() as int) as u64),
    {
        let low = mmio.read32(self.base, SEC_SYS_BOOT_ADDR_L) as u64;
        let high = mmio.read32(self.base, SEC_SYS_BOOT_ADDR_H) as u64;
        assert(read_at(mmio.trace(), old(mmio).trace().len() as int) == low);
        assert(read_at(mmio.trace(), old(mmio).trace().len() + 1int) == high);
        assert(mmio.trace() =~= old(mmio).trace() + seq![
            BusOp::Read32 { base: self.base, offset: SEC_SYS_BOOT_ADDR_L, value: low as u32 },
            BusOp::Read32 { base: self.base, offset: SEC_SYS_BOOT_ADDR_H, value: high as u32 },
        ]);
        (high << 32u64) | low
    }

    /// Starts the secondary core at `entry`: holds its subsystem in reset,
    /// enables it, sets the boot address, fences, releases the reset and
    /// fences again.
    pub fn start_secondary_core<B: RegisterBus>(&self, mmio: &mut Mmio<B>, entry: u64)
        ensures
            ({
                let t = final(mmio).trace();
                let n = old(mmio).trace().len() as int;
                &&& t.len() == n + 10
                &&& bits_rw(old(mmio).trace(), t.take(n + 2), RSTC_BASE, SOFT_CPU_RSTN, 1u32 << (4 + SECONDARY_CPU_SYS), false)
                &&& bits_rw(t.take(n + 2), t.take(n + 4), self.base(), SEC_SYS_CTRL, SEC_CPU_EN, true)
                &&& t[n + 4] == (BusOp::Write32 { base: self.base(), offset: SEC_SYS_BOOT_ADDR_L, value: entry as u32 })
                &&& t[n + 5] == (BusOp::Write32 { base: self.base(), offset: SEC_SYS_BOOT_ADDR_H, value: (entry >> 32u64) as u32 })
                &&& t[n + 6] == BusOp::Fence
                &&& bits_rw(t.take(n + 7), t.take(n + 9), RSTC_BASE, SOFT_CPU_RSTN, 1u32 << (4 + SECONDARY_CPU_SYS), true)
                &&& t[n + 9] == BusOp::Fence
            }),
    {
        let ghost t0 = mmio.trace();
        let rstc = Rstc::from_base_address(RSTC_BASE);
        rstc.assert_cpu_sys_reset(mmio, SECONDARY_CPU_SYS);
        let ghost t1 = mmio.trace();
        self.enable_secondary_cpu(mmio);
        let ghost t2 = mmio.trace();
        self.set_boot_address(mmio, entry);
        mmio.instruction_fence();
        let ghost t3 = mmio.trace();
        rstc.release_cpu_sys_reset(mmio, SECONDARY_CPU_SYS);
        let ghost t4 = mmio.trace();
        mmio.instruction_fence();
        proof {
            let t = mmio.trace();
            let n = t0.len() as int;
            assert(t.take(n + 2) =~= t1);
            assert(t.take(n + 4) =~= t2);
            assert(t.take(n + 7) =~= t3);
            assert(t.take(n + 9) =~= t4);
        }
    }

    /// Base address of the registers.
    pub fn regs(&self) -> (b: usize)
        ensures
            b == self.base(),
    {
        self.base
    }
}

} // verus!
