//! Pad configuration registers (IOBLK): pull resistors, drive strength,
//! Schmitt trigger, bus holder and slew rate of one pad.
use crate::mmio::{modify32_ops, read_at, BusOp, Mmio, RegisterBus};
use vstd::prelude::*;

verus! {

/// `IOBLK_REG.PU`: pull-up enable.
pub const IOBLK_PU: u32 = 0x4;

/// `IOBLK_REG.PD`: pull-down enable.
pub const IOBLK_PD: u32 = 0x8;

/// `IOBLK_REG.DS[2:0]`: drive strength, bits 5 to 7.
pub const IOBLK_DS_MASK: u32 = 0xE0;

/// `IOBLK_REG.ST[1:0]`: Schmitt trigger strength, bits 8 and 9.
pub const IOBLK_ST_MASK: u32 = 0x300;

/// `IOBLK_REG.HE`: bus holder enable.
pub const IOBLK_HE: u32 = 0x400;

/// `IOBLK_REG.SL`: slew rate limit.
pub const IOBLK_SL: u32 = 0x800;

/// `bit` when `on`, else nothing.
pub open spec fn bit_if(on: bool, bit: u32) -> u32 {
    if on {
        bit
    } else {
        0
    }
}

/// Configuration of one pad.
pub trait IoConfig {
    fn set_pull_up<B: RegisterBus>(&self, mmio: &mut Mmio<B>, enable: bool);

    fn set_pull_down<B: RegisterBus>(&self, mmio: &mut Mmio<B>, enable: bool);

    /// Drive strength 0 to 7.
    fn set_drive_strength<B: RegisterBus>(&self, mmio: &mut Mmio<B>, strength: u8);

    fn get_drive_strength<B: RegisterBus>(&self, mmio: &mut Mmio<B>) -> u8;

    /// Schmitt trigger level 0 to 3.
    fn set_schmitt_trigger<B: RegisterBus>(&self, mmio: &mut Mmio<B>, level: u8);

    fn set_bus_holder<B: RegisterBus>(&self, mmio: &mut Mmio<B>, enable: bool);

    fn set_slew_rate_limit<B: RegisterBus>(&self, mmio: &mut Mmio<B>, enable: bool);
}

/// The configuration register of one pad: `offset` in the pad group at `base`.
#[derive(Debug, Clone, Copy, PartialEq, Eq, Structural)]
pub struct IoblkPad {
    pub base: usize,
    pub offset: usize,
}

/// The read-modify-write of the pad register that read `old`.
pub open spec fn pad_rmw(p: IoblkPad, t: Seq<BusOp>, n: int, clear: u32, set: u32) -> Seq<BusOp> {
    modify32_ops(p.base, p.offset, read_at(t, n), clear, set)
}

impl IoblkPad {
    fn update<B: RegisterBus>(&self, mmio: &mut Mmio<B>, clear: u32, set: u32)
        ensures
            final(mmio).trace() == old(mmio).trace() + pad_rmw(*self, final(mmio).trace(), old(mmio).trace().len() as int, clear, set),
    {
        let v = mmio.modify32(self.base, self.offset, clear, set);
        assert(read_at(mmio.trace(), old(mmio).trace().len() as int) == v);
    }
}

impl IoConfig for IoblkPad {
    fn set_pull_up<B: RegisterBus>(&self, mmio: &mut Mmio<B>, enable: bool)
        ensures
            final(mmio).trace() == old(mmio).trace() + pad_rmw(*self, final(mmio).trace(), old(mmio).trace().len() as int, IOBLK_PU, bit_if(enable, IOBLK_PU)),
    {
        self.update(mmio, IOBLK_PU, if enable { IOBLK_PU } else { 0 });
    }

    fn set_pull_down<B: RegisterBus>(&self, mmio: &mut Mmio<B>, enable: bool)
        ensures
            final(mmio).trace() == old(mmio).trace() + pad_rmw(*self, final(mmio).trace(), old(mmio).trace().len() as int, IOBLK_PD, bit_if(enable, IOBLK_PD)),
    {
        self.update(mmio, IOBLK_PD, if enable { IOBLK_PD } else { 0 });
    }

    fn set_drive_strength<B: RegisterBus>(&self, mmio: &mut Mmio<B>, strength: u8)
        ensures
            final(mmio).trace() == old(mmio).trace() + pad_rmw(*self, final(mmio).trace(), old(mmio).trace().len() as int, IOBLK_DS_MASK, ((strength & 7) as u32) << 5u32),
    {
        self.update(mmio, IOBLK_DS_MASK, ((strength & 7) as u32) << 5u32);
    }

    fn get_drive_strength<B: RegisterBus>(&self, mmio: &mut Mmio<B>) -> (s: u8)
        ensures
            final(mmio).trace() == old(mmio).trace().push(BusOp::Read32 { base: self.base, offset: self.offset, value: read_at(final(mmio).trace(), old(mmio).trace().len() as int) }),
            s == ((read_at(final(mmio).trace(), old(mmio).trace().len() as int) >> 5u32) & 7) as u8,
    {
        let v = mmio.read32(self.base, self.offset);
        assert(read_at(mmio.trace(), old(mmio).trace().len() as int) == v);
        ((v >> 5u32) & 7) as u8
    }

    fn set_schmitt_trigger<B: RegisterBus>(&self, mmio: &mut Mmio<B>, level: u8)
        ensures
            final(mmio).trace() == old(mmio).trace() + pad_rmw(*self, final(mmio).trace(), old(mmio).trace().len() as int, IOBLK_ST_MASK, ((level & 3) as u32) << 8u32),
    {
        self.update(mmio, IOBLK_ST_MASK, ((level & 3) as u32) << 8u32);
    }

    fn set_bus_holder<B: RegisterBus>(&self, mmio: &mut Mmio<B>, enable: bool)
        ensures
            final(mmio).trace() == old(mmio).trace() + pad_rmw(*self, final(mmio).trace(), old(mmio).trace().len() as int, IOBLK_HE, bit_if(enable, IOBLK_HE)),
    {
        self.update(mmio, IOBLK_HE, if enable { IOBLK_HE } else { 0 });
    }

    fn set_slew_rate_limit<B: RegisterBus>(&self, mmio: &mut Mmio<B>, enable: bool)
        ensures
            final(mmio).trace() == old(mmio).trace() + pad_rmw(*self, final(mmio).trace(), old(mmio).trace().len() as int, IOBLK_SL, bit_if(enable, IOBLK_SL)),
    {
        self.update(mmio, IOBLK_SL, if enable { IOBLK_SL } else { 0 });
    }
}

} // verus!
