//! IEEE 802.3 clause 22 PHY register access over the GMAC's MDIO master.
//!
//! Every transaction polls the MII address register until its busy bit
//! clears, at most [`MDIO_POLL_LIMIT`] times, and goes on either way.
use super::regs::{
    GMAC_MII_ADDR, GMAC_MII_DATA, MII_BUSY, MII_CLK_CSR_60_100M_DIV42, MII_CLK_CSR_SHIFT,
    MII_PHY_SHIFT, MII_REG_SHIFT, MII_WRITE,
};
use crate::mmio::{is_read32_of, lemma_extend, polled_until_clear, read_at, BusOp, Mmio, RegisterBus};
use vstd::prelude::*;

verus! {

pub const MDIO_POLL_LIMIT: u32 = 100_000;

/// A wait for the MDIO master: reads of the MII address register until the
/// busy bit cleared or the limit was reached.
pub open spec fn mdio_wait_ops(ops: Seq<BusOp>, gmac: usize) -> bool {
    polled_until_clear(ops, gmac, GMAC_MII_ADDR, MII_BUSY, MDIO_POLL_LIMIT as int, true)
        || polled_until_clear(ops, gmac, GMAC_MII_ADDR, MII_BUSY, MDIO_POLL_LIMIT as int, false)
}

/// The MII address register value that starts a transaction on PHY `phy`,
/// register `reg` (each a 5-bit field), with the MDC range for a 60-100 MHz
/// clock.
pub open spec fn mii_command(phy: u32, reg: u32, write: bool) -> u32 {
    ((phy & 0x1f) << MII_PHY_SHIFT) | ((reg & 0x1f) << MII_REG_SHIFT) | (MII_CLK_CSR_60_100M_DIV42
        << MII_CLK_CSR_SHIFT) | (if write { MII_WRITE } else { 0 }) | MII_BUSY
}

/// A read split at `p` (the command write) and `q` (the data read, last).
pub open spec fn mdio_read_split(seg: Seq<BusOp>, gmac: usize, phy: u32, reg: u32, p: int, q: int) -> bool {
    &&& 0 <= p < q
    &&& q == seg.len() - 1
    &&& mdio_wait_ops(seg.take(p), gmac)
    &&& seg[p] == BusOp::Write32 { base: gmac, offset: GMAC_MII_ADDR, value: mii_command(phy, reg, false) }
    &&& mdio_wait_ops(seg.subrange(p + 1, q), gmac)
    &&& is_read32_of(seg[q], gmac, GMAC_MII_DATA)
}

/// `seg` is a clause 22 read of `reg` of PHY `phy`: a wait, the read
/// command, a wait, and a read of the MII data register.
#[verifier::opaque]
pub open spec fn mdio_read_ops(seg: Seq<BusOp>, gmac: usize, phy: u32, reg: u32) -> bool {
    exists|p: int, q: int| #[trigger] mdio_read_split(seg, gmac, phy, reg, p, q)
}

/// The 16-bit value a read transaction returned: the low half of its last
/// access.
pub open spec fn mdio_value(seg: Seq<BusOp>) -> u16 {
    read_at(seg, seg.len() - 1) as u16
}

/// A write split at `p` (the data write).
pub open spec fn mdio_write_split(seg: Seq<BusOp>, gmac: usize, phy: u32, reg: u32, data: u16, p: int) -> bool {
    &&& 0 <= p
    &&& p + 2 < seg.len()
    &&& mdio_wait_ops(seg.take(p), gmac)
    &&& seg[p] == BusOp::Write32 { base: gmac, offset: GMAC_MII_DATA, value: data as u32 }
    &&& seg[p + 1] == BusOp::Write32 { base: gmac, offset: GMAC_MII_ADDR, value: mii_command(phy, reg, true) }
    &&& mdio_wait_ops(seg.skip(p + 2), gmac)
}

/// `seg` is a clause 22 write of `data` to `reg` of PHY `phy`: a wait, the
/// data, the write command, a wait.
#[verifier::opaque]
pub open spec fn mdio_write_ops(seg: Seq<BusOp>, gmac: usize, phy: u32, reg: u32, data: u16) -> bool {
    exists|p: int| #[trigger] mdio_write_split(seg, gmac, phy, reg, data, p)
}

fn mdio_wait<B: RegisterBus>(mmio: &mut Mmio<B>, gmac: usize)
    ensures
        old(mmio).trace().len() < final(mmio).trace().len(),
        final(mmio).trace().take(old(mmio).trace().len() as int) == old(mmio).trace(),
        mdio_wait_ops(final(mmio).trace().skip(old(mmio).trace().len() as int), gmac),
{
    let _ = mmio.poll32_until_clear(gmac, GMAC_MII_ADDR, MII_BUSY, MDIO_POLL_LIMIT);
}

fn mii_command_of(phy: u32, reg: u32, write: bool) -> (c: u32)
    ensures
        c == mii_command(phy, reg, write),
{
    ((phy & 0x1f) << MII_PHY_SHIFT) | ((reg & 0x1f) << MII_REG_SHIFT) | (MII_CLK_CSR_60_100M_DIV42
        << MII_CLK_CSR_SHIFT) | (if write { MII_WRITE } else { 0 }) | MII_BUSY
}

/// Reads register `reg` of PHY `phy`; returns its low 16 bits.
pub fn mdio_read<B: RegisterBus>(mmio: &mut Mmio<B>, gmac: usize, phy: u32, reg: u32) -> (v: u16)
    ensures
        old(mmio).trace().len() < final(mmio).trace().len(),
        final(mmio).trace().take(old(mmio).trace().len() as int) == old(mmio).trace(),
        mdio_read_ops(final(mmio).trace().skip(old(mmio).trace().len() as int), gmac, phy, reg),
        v == mdio_value(final(mmio).trace().skip(old(mmio).trace().len() as int)),
{
    proof {
        reveal(mdio_read_ops);
    }
    let ghost t0 = mmio.trace();
    mdio_wait(mmio, gmac);
    let ghost t1 = mmio.trace();
    let cmd = mii_command_of(phy, reg, false);
    mmio.write32(gmac, GMAC_MII_ADDR, cmd);
    let ghost t2 = mmio.trace();
    mdio_wait(mmio, gmac);
    let ghost t3 = mmio.trace();
    let data = mmio.read32(gmac, GMAC_MII_DATA);
    proof {
        let t = mmio.trace();
        assert(t2.take(t1.len() as int) =~= t1);
        assert(t.take(t3.len() as int) =~= t3);
        lemma_extend(t0, t1, t2);
        lemma_extend(t0, t2, t3);
        lemma_extend(t0, t3, t);
        let seg = t.skip(t0.len() as int);
        let p = t1.len() - t0.len();
        let q = t3.len() - t0.len();
        assert(seg.take(p) =~= t1.skip(t0.len() as int));
        assert(seg.subrange(p + 1, q) =~= t3.skip(t2.len() as int));
        assert(seg[p] == t2[t1.len() as int]);
        assert(seg[q] == BusOp::Read32 { base: gmac, offset: GMAC_MII_DATA, value: data });
        assert(mdio_read_split(seg, gmac, phy, reg, p, q));
    }
    data as u16
}

/// Writes `data` to register `reg` of PHY `phy`.
pub fn mdio_write<B: RegisterBus>(mmio: &mut Mmio<B>, gmac: usize, phy: u32, reg: u32, data: u16)
    ensures
        old(mmio).trace().len() < final(mmio).trace().len(),
        final(mmio).trace().take(old(mmio).trace().len() as int) == old(mmio).trace(),
        mdio_write_ops(final(mmio).trace().skip(old(mmio).trace().len() as int), gmac, phy, reg, data),
{
    proof {
        reveal(mdio_write_ops);
    }
    let ghost t0 = mmio.trace();
    mdio_wait(mmio, gmac);
    let ghost t1 = mmio.trace();
    mmio.write32(gmac, GMAC_MII_DATA, data as u32);
    let cmd = mii_command_of(phy, reg, true);
    mmio.write32(gmac, GMAC_MII_ADDR, cmd);
    let ghost t2 = mmio.trace();
    mdio_wait(mmio, gmac);
    proof {
        let t = mmio.trace();
        assert(t2.take(t1.len() as int) =~= t1);
        lemma_extend(t0, t1, t2);
        lemma_extend(t0, t2, t);
        let seg = t.skip(t0.len() as int);
        let p = t1.len() - t0.len();
        assert(seg.take(p) =~= t1.skip(t0.len() as int));
        assert(seg.skip(p + 2) =~= t.skip(t2.len() as int));
        assert(seg[p] == t2[t1.len() as int]);
        assert(seg[p + 1] == t2[t1.len() + 1int]);
        assert(mdio_write_split(seg, gmac, phy, reg, data, p));
    }
}

} // verus!
