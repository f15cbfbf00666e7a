//! Polled driver for the on-chip DesignWare MAC (DWMAC 3.70a) with its
//! internal Ethernet PHY.
//!
//! Bring-up: clock gates and resets, DMA soft reset, transmit and receive
//! descriptor rings, DMA bus mode, MAC address and frame filter, PHY reset
//! and auto-negotiation over MDIO, MAC speed and duplex from the negotiated
//! abilities, then the DMA engines.  After that, frames are sent with
//! [`CvitekEthNic::transmit`] and taken with [`CvitekEthNic::receive`].
//!
//! The descriptor rings and packet buffers live in a DMA region that the
//! platform provides ([`EthDmaRegion`]); the driver reaches descriptors
//! through the register bus and packet data through its copy operations.
use super::desc::{
    BUF_SIZE, DESC_STRIDE, RDES0_ES, RDES0_FL_MASK, RDES0_FL_SHIFT, RDES0_OWN, RDES1_RBS1_MASK,
    RDES1_RER, RX_RING_SIZE, TDES0_OWN, TDES1_FS, TDES1_IC, TDES1_LS, TDES1_TBS1_MASK, TDES1_TER,
    TX_RING_SIZE,
};
use super::mdio::{mdio_read, mdio_read_ops, mdio_value, mdio_write, mdio_write_ops};
use super::regs::{
    ADDR0_ENABLE, BUS_MODE_SWR, BUS_MODE_VALUE, DMA_BUS_MODE, DMA_INTR_ENA, DMA_OPERATION,
    DMA_RX_BASE, DMA_RX_POLL, DMA_STATUS, DMA_STATUS_NIS, DMA_STATUS_RI, DMA_TX_BASE, DMA_TX_POLL,
    FRAME_FILTER_PR, FRAME_FILTER_RA, GMAC_ADDR0_HIGH, GMAC_ADDR0_LOW, GMAC_FRAME_FILTER,
    GMAC_HASH_HIGH, GMAC_HASH_LOW, GMAC_INT_MASK, GMAC_MAC_CONTROL, GMAC_MMC_CNTRL,
    MAC_CONTROL_DM, MAC_CONTROL_FES, MAC_CONTROL_PS, MAC_CONTROL_RE, MAC_CONTROL_TE, OP_FTF, OP_OSF,
    OP_RSF, OP_SR, OP_ST, OP_TSF,
};
use crate::cif::vip_sys::CV181X_SYS_CLOCK_BASE;
use crate::mmio::{bits_rw, fit_len, is_read32_of, polled_until_clear, read_at, BusOp, Mmio, RegisterBus};
use crate::rstc::{RSTC_BASE, SOFT_RSTN_0, SOFT_RSTN_3};
use vstd::prelude::*;

verus! {

/// Default base address of the controller.
pub const ETH_BASE: usize = 0x0407_0000;

/// Address of the PHY on the internal MDIO bus.
pub const PHY_ADDR: u32 = 0;

/// Clock enable register 0 of the clock generator.
pub const REG_CLK_EN_0: usize = 0x000;

/// Clock enables of the Ethernet AXI clock (bit 25) and 500 MHz clock (bit 26).
pub const CLKEN0_ETH_MASK: u32 = (1 << 25) | (1 << 26);

/// Reset release of the Ethernet MAC in SOFT_RSTN_0.
pub const SOFT_RSTN0_ETH0: u32 = 1 << 12;

/// Reset release of the internal PHY in SOFT_RSTN_3.
pub const SOFT_RSTN3_EPHY_MASK: u32 = (1 << 0) | (1 << 1);

/// Shortest Ethernet frame without FCS; shorter frames are padded.
pub const MIN_ETH_FRAME: usize = 60;

/// Delay after releasing the resets.
pub const RESET_SETTLE_DELAY: u32 = 2_000_000;

/// Delay after the PHY soft reset.
pub const PHY_RESET_DELAY: u32 = 1_000_000;

/// Reads of BMCR while waiting for the PHY reset to clear.
pub const PHY_RESET_POLLS: u32 = 100;

/// Delay between those reads.
pub const PHY_RESET_POLL_DELAY: u32 = 100_000;

/// Rounds of the link wait (about five seconds).
pub const LINK_POLLS: u32 = 2500;

/// Delay between link rounds.
pub const LINK_POLL_DELAY: u32 = 200_000;

/// Status polls of the DMA reset and of the transmit FIFO flush.
pub const DMA_POLL_LIMIT: u32 = 100_000;

/// Errors of the driver.
#[derive(Debug, Clone, Copy, PartialEq, Eq, Structural)]
pub enum EthError {
    /// No free transmit descriptor, or no new frame.
    Again,
    /// Buffers could not be had.
    NoMemory,
    /// Packet too large or otherwise invalid.
    BadParam,
}

pub type EthResult<T> = Result<T, EthError>;

/// Where the rings and buffers live: descriptor `i` of a ring at
/// `desc + 64 * i`, packet buffer `i` at `buf + 2048 * i` (addresses as the
/// DMA sees them; the CPU uses the same ones).
#[derive(Debug, Clone, Copy, PartialEq, Eq, Structural)]
pub struct EthDmaRegion {
    pub tx_desc: usize,
    pub rx_desc: usize,
    pub tx_buf: usize,
    pub rx_buf: usize,
}

/// The rings and buffers of a region lie inside the address space.
pub open spec fn region_ok(m: EthDmaRegion) -> bool {
    &&& m.tx_desc + DESC_STRIDE * TX_RING_SIZE <= usize::MAX
    &&& m.rx_desc + DESC_STRIDE * RX_RING_SIZE <= usize::MAX
    &&& m.tx_buf + BUF_SIZE * TX_RING_SIZE <= usize::MAX
    &&& m.rx_buf + BUF_SIZE * RX_RING_SIZE <= usize::MAX
}

pub open spec fn tx_desc_at(m: EthDmaRegion, i: int) -> usize {
    (m.tx_desc + DESC_STRIDE * i) as usize
}

pub open spec fn rx_desc_at(m: EthDmaRegion, i: int) -> usize {
    (m.rx_desc + DESC_STRIDE * i) as usize
}

pub open spec fn tx_buf_at(m: EthDmaRegion, i: int) -> usize {
    (m.tx_buf + BUF_SIZE * i) as usize
}

pub open spec fn rx_buf_at(m: EthDmaRegion, i: int) -> usize {
    (m.rx_buf + BUF_SIZE * i) as usize
}

/// The MAC address held in ADDR0 high/low: the low register's four bytes
/// (least significant first), then the high register's two.
pub open spec fn hw_mac(hi: u32, lo: u32) -> Seq<u8> {
    seq![
        (lo & 0xff) as u8,
        ((lo >> 8) & 0xff) as u8,
        ((lo >> 16) & 0xff) as u8,
        ((lo >> 24) & 0xff) as u8,
        (hi & 0xff) as u8,
        ((hi >> 8) & 0xff) as u8,
    ]
}

pub open spec fn default_mac() -> Seq<u8> {
    seq![0x00u8, 0x50, 0x43, 0x02, 0x02, 0x02]
}

/// The address the driver uses: the hardware's, unless it is all zeros or
/// all ones.
pub open spec fn chosen_mac(hi: u32, lo: u32) -> Seq<u8> {
    let m = hw_mac(hi, lo);
    if m == seq![0u8, 0, 0, 0, 0, 0] || m == seq![0xffu8, 0xff, 0xff, 0xff, 0xff, 0xff] {
        default_mac()
    } else {
        m
    }
}

/// ADDR0 low as written for `m`.
pub open spec fn mac_lo(m: Seq<u8>) -> u32 {
    (m[0] as u32) | ((m[1] as u32) << 8) | ((m[2] as u32) << 16) | ((m[3] as u32) << 24)
}

/// ADDR0 high as written for `m`: its last two bytes, address enabled.
pub open spec fn mac_hi(m: Seq<u8>) -> u32 {
    ((m[4] as u32) | ((m[5] as u32) << 8)) | ADDR0_ENABLE
}

/// Speed (100 Mbit/s?) and full duplex from the local (ANAR) and partner
/// (LPA) abilities: the best common mode of 100FD, 100HD, 10FD, 10HD; with
/// none in common, 100 Mbit/s full duplex.
pub open spec fn link_mode(anar: u16, lpa: u16) -> (bool, bool) {
    let common = anar & lpa;
    if common & 0x100 != 0 {
        (true, true)
    } else if common & 0x80 != 0 {
        (true, false)
    } else if common & 0x40 != 0 {
        (false, true)
    } else if common & 0x20 != 0 {
        (false, false)
    } else {
        (true, true)
    }
}

/// MAC control for a mode: MII port, transmitter and receiver on, speed and
/// duplex bits as chosen.
pub open spec fn mac_control_value(mode: (bool, bool)) -> u32 {
    MAC_CONTROL_PS | MAC_CONTROL_TE | MAC_CONTROL_RE | (if mode.0 { MAC_CONTROL_FES } else { 0 }) | (
    if mode.1 {
        MAC_CONTROL_DM
    } else {
        0
    })
}

/// DMA operation as first written: store-and-forward both ways, operate on
/// second frame, flush the transmit FIFO.
pub open spec fn op_start_value() -> u32 {
    OP_TSF | OP_RSF | OP_OSF | OP_FTF
}

/// Receive buffer size field with the end-of-ring flag on the last
/// descriptor.
pub open spec fn rdes1_value(i: int) -> u32 {
    RDES1_RBS1_MASK | (if i == RX_RING_SIZE - 1 { RDES1_RER } else { 0 })
}

/// Setting up transmit descriptor `i`: empty, end of ring on the last one,
/// its buffer, then written back from the cache.
pub open spec fn tx_desc_setup(m: EthDmaRegion, i: int) -> Seq<BusOp> {
    let d = tx_desc_at(m, i);
    seq![
        BusOp::Write32 { base: d, offset: 0, value: 0 },
        BusOp::Write32 { base: d, offset: 4, value: if i == TX_RING_SIZE - 1 { TDES1_TER } else { 0 } },
        BusOp::Write32 { base: d, offset: 8, value: tx_buf_at(m, i) as u32 },
        BusOp::Write32 { base: d, offset: 12, value: 0 },
        BusOp::CacheClean { addr: d, len: DESC_STRIDE },
    ]
}

/// Handing receive descriptor `slot` to the DMA: its buffer, size, a
/// fence, the own bit last, written back from the cache.
pub open spec fn rx_desc_give(m: EthDmaRegion, slot: int) -> Seq<BusOp> {
    let d = rx_desc_at(m, slot);
    seq![
        BusOp::Write32 { base: d, offset: 8, value: rx_buf_at(m, slot) as u32 },
        BusOp::Write32 { base: d, offset: 4, value: rdes1_value(slot) },
        BusOp::Write32 { base: d, offset: 12, value: 0 },
        BusOp::MemoryFence,
        BusOp::Write32 { base: d, offset: 0, value: RDES0_OWN },
        BusOp::CacheClean { addr: d, len: DESC_STRIDE },
    ]
}

#[verifier::opaque]
pub open spec fn tx_ring_ops(ops: Seq<BusOp>, m: EthDmaRegion) -> bool {
    &&& ops.len() == 5 * TX_RING_SIZE
    &&& forall|i: int| 0 <= i < TX_RING_SIZE ==> #[trigger] ops.subrange(5 * i, 5 * i + 5) == tx_desc_setup(m, i)
}

#[verifier::opaque]
pub open spec fn rx_ring_ops(ops: Seq<BusOp>, m: EthDmaRegion) -> bool {
    &&& ops.len() == 6 * RX_RING_SIZE
    &&& forall|i: int| 0 <= i < RX_RING_SIZE ==> #[trigger] ops.subrange(6 * i, 6 * i + 6) == rx_desc_give(m, i)
}

/// The clock gates opened and the MAC and PHY resets released (each a
/// read-modify-write), then the settle delay.
#[verifier::opaque]
pub open spec fn clock_reset_ops(ops: Seq<BusOp>) -> bool {
    &&& ops.len() == 7
    &&& is_read32_of(ops[0], CV181X_SYS_CLOCK_BASE, REG_CLK_EN_0)
    &&& ops[1] == BusOp::Write32 { base: CV181X_SYS_CLOCK_BASE, offset: REG_CLK_EN_0, value: read_at(ops, 0) | CLKEN0_ETH_MASK }
    &&& is_read32_of(ops[2], RSTC_BASE, SOFT_RSTN_0)
    &&& ops[3] == BusOp::Write32 { base: RSTC_BASE, offset: SOFT_RSTN_0, value: read_at(ops, 2) | SOFT_RSTN0_ETH0 }
    &&& is_read32_of(ops[4], RSTC_BASE, SOFT_RSTN_3)
    &&& ops[5] == BusOp::Write32 { base: RSTC_BASE, offset: SOFT_RSTN_3, value: read_at(ops, 4) | SOFT_RSTN3_EPHY_MASK }
    &&& ops[6] == BusOp::Delay { units: RESET_SETTLE_DELAY }
}

/// A poll of `offset` until `mask` clears or the limit, whichever first.
#[verifier::opaque]
pub open spec fn any_poll(ops: Seq<BusOp>, base: usize, offset: usize, mask: u32) -> bool {
    polled_until_clear(ops, base, offset, mask, DMA_POLL_LIMIT as int, true) || polled_until_clear(
        ops,
        base,
        offset,
        mask,
        DMA_POLL_LIMIT as int,
        false,
    )
}

/// The DMA soft reset: the reset bit set (read-modify-write) and polled
/// until it clears.
#[verifier::opaque]
pub open spec fn dma_reset_ops(ops: Seq<BusOp>, base: usize) -> bool {
    &&& ops.len() >= 3
    &&& bits_rw(Seq::empty(), ops.take(2), base, DMA_BUS_MODE, BUS_MODE_SWR, true)
    &&& any_poll(ops.skip(2), base, DMA_BUS_MODE, BUS_MODE_SWR)
}

/// The register writes after the rings: bus mode, ring bases, interrupts
/// masked, the MAC address, promiscuous receive-all filtering.
pub open spec fn config_writes(base: usize, m: EthDmaRegion, mac: Seq<u8>) -> Seq<BusOp> {
    seq![
        BusOp::Write32 { base, offset: DMA_BUS_MODE, value: BUS_MODE_VALUE },
        BusOp::Write32 { base, offset: DMA_TX_BASE, value: m.tx_desc as u32 },
        BusOp::Write32 { base, offset: DMA_RX_BASE, value: m.rx_desc as u32 },
        BusOp::Write32 { base, offset: GMAC_INT_MASK, value: 0x60F },
        BusOp::Write32 { base, offset: DMA_INTR_ENA, value: 0 },
        BusOp::Write32 { base, offset: GMAC_ADDR0_LOW, value: mac_lo(mac) },
        BusOp::Write32 { base, offset: GMAC_ADDR0_HIGH, value: mac_hi(mac) },
        BusOp::Write32 { base, offset: GMAC_FRAME_FILTER, value: FRAME_FILTER_PR | FRAME_FILTER_RA },
        BusOp::Write32 { base, offset: GMAC_HASH_HIGH, value: 0xFFFF_FFFF },
        BusOp::Write32 { base, offset: GMAC_HASH_LOW, value: 0xFFFF_FFFF },
    ]
}

/// A BMCR read that still showed the reset bit, then the poll delay.
pub open spec fn reset_busy(item: Seq<BusOp>, g: usize) -> bool {
    &&& item.len() >= 1
    &&& item.last() == BusOp::Delay { units: PHY_RESET_POLL_DELAY }
    &&& mdio_read_ops(item.drop_last(), g, PHY_ADDR, 0)
    &&& mdio_value(item.drop_last()) & 0x8000 != 0
}

/// A BMCR read that showed the reset bit clear.
pub open spec fn reset_done(item: Seq<BusOp>, g: usize) -> bool {
    mdio_read_ops(item, g, PHY_ADDR, 0) && mdio_value(item) & 0x8000 == 0
}

pub open spec fn reset_items(ops: Seq<BusOp>, g: usize, items: Seq<Seq<BusOp>>) -> bool {
    &&& ops == items.flatten()
    &&& 1 <= items.len() <= PHY_RESET_POLLS
    &&& forall|i: int| 0 <= i < items.len() - 1 ==> #[trigger] reset_busy(items[i], g)
    &&& reset_done(items.last(), g) || (items.len() == PHY_RESET_POLLS && reset_busy(items.last(), g))
}

/// The wait for the PHY reset: BMCR reads until the reset bit clears, at
/// most [`PHY_RESET_POLLS`], with a delay after each that did not.
#[verifier::opaque]
pub open spec fn reset_wait(ops: Seq<BusOp>, g: usize) -> bool {
    exists|items: Seq<Seq<BusOp>>| #[trigger] reset_items(ops, g, items)
}

/// A link round with the link down: two BMSR reads (the second showing no
/// link), then the round delay.
pub open spec fn link_down_split(item: Seq<BusOp>, g: usize, p: int, q: int) -> bool {
    &&& 0 < p < q
    &&& q == item.len() - 1
    &&& mdio_read_ops(item.take(p), g, PHY_ADDR, 1)
    &&& mdio_read_ops(item.subrange(p, q), g, PHY_ADDR, 1)
    &&& mdio_value(item.subrange(p, q)) & 4 == 0
    &&& item[q] == BusOp::Delay { units: LINK_POLL_DELAY }
}

pub open spec fn link_down(item: Seq<BusOp>, g: usize) -> bool {
    exists|p: int, q: int| #[trigger] link_down_split(item, g, p, q)
}

/// The round that saw the link: two BMSR reads (the second showing link),
/// then BMCR and LPA read.
pub open spec fn link_up_split(item: Seq<BusOp>, g: usize, p: int, q: int, r: int) -> bool {
    &&& 0 < p < q < r < item.len()
    &&& mdio_read_ops(item.take(p), g, PHY_ADDR, 1)
    &&& mdio_read_ops(item.subrange(p, q), g, PHY_ADDR, 1)
    &&& mdio_value(item.subrange(p, q)) & 4 != 0
    &&& mdio_read_ops(item.subrange(q, r), g, PHY_ADDR, 0)
    &&& mdio_read_ops(item.skip(r), g, PHY_ADDR, 5)
}

pub open spec fn link_up(item: Seq<BusOp>, g: usize) -> bool {
    exists|p: int, q: int, r: int| #[trigger] link_up_split(item, g, p, q, r)
}

/// After every round saw the link down: BMCR, BMSR and LPA read.
pub open spec fn link_fallback_split(item: Seq<BusOp>, g: usize, p: int, q: int) -> bool {
    &&& 0 < p < q < item.len()
    &&& mdio_read_ops(item.take(p), g, PHY_ADDR, 0)
    &&& mdio_read_ops(item.subrange(p, q), g, PHY_ADDR, 1)
    &&& mdio_read_ops(item.skip(q), g, PHY_ADDR, 5)
}

pub open spec fn link_fallback(item: Seq<BusOp>, g: usize) -> bool {
    exists|p: int, q: int| #[trigger] link_fallback_split(item, g, p, q)
}

pub open spec fn link_items(ops: Seq<BusOp>, g: usize, items: Seq<Seq<BusOp>>) -> bool {
    &&& ops == items.flatten()
    &&& 1 <= items.len() <= LINK_POLLS + 1
    &&& forall|i: int| 0 <= i < items.len() - 1 ==> #[trigger] link_down(items[i], g)
    &&& (items.len() <= LINK_POLLS && link_up(items.last(), g)) || (items.len() == LINK_POLLS + 1
        && link_fallback(items.last(), g))
}

/// The link wait: rounds until BMSR shows the link, at most
/// [`LINK_POLLS`]; it ends with a read of the partner abilities (LPA).
#[verifier::opaque]
pub open spec fn link_wait(ops: Seq<BusOp>, g: usize) -> bool {
    exists|items: Seq<Seq<BusOp>>| #[trigger] link_items(ops, g, items)
}

/// The whole bring-up, phase by phase (`p0` to `p14`); `mac` is the
/// address it chose.
#[verifier::opaque]
pub open spec fn init_phases(
    ops: Seq<BusOp>,
    base: usize,
    m: EthDmaRegion,
    mac: Seq<u8>,
    p0: Seq<BusOp>,
    p1: Seq<BusOp>,
    p2: Seq<BusOp>,
    p3: Seq<BusOp>,
    p4: Seq<BusOp>,
    p5: Seq<BusOp>,
    p6: Seq<BusOp>,
    p7: Seq<BusOp>,
    p8: Seq<BusOp>,
    p9: Seq<BusOp>,
    p10: Seq<BusOp>,
    p11: Seq<BusOp>,
    p12: Seq<BusOp>,
    p13: Seq<BusOp>,
    p14: Seq<BusOp>,
) -> bool {
    &&& ops == p0 + p1 + p2 + p3 + p4 + p5 + p6 + p7 + p8 + p9 + p10 + p11 + p12 + p13 + p14
    &&& init_head_phases(base, m, mac, p0, p1, p2, p3, p4, p5)
    &&& init_tail_phases(base, p6, p7, p8, p9, p10, p11, p12, p13, p14)
}

/// The first phases of the bring-up: the MAC address read (`mac` is the one
/// chosen from it), clocks and resets, DMA reset, both rings, the MAC
/// configuration.
#[verifier::opaque]
pub open spec fn init_head_phases(
    base: usize,
    m: EthDmaRegion,
    mac: Seq<u8>,
    p0: Seq<BusOp>,
    p1: Seq<BusOp>,
    p2: Seq<BusOp>,
    p3: Seq<BusOp>,
    p4: Seq<BusOp>,
    p5: Seq<BusOp>,
) -> bool {
    &&& p0.len() == 2 && is_read32_of(p0[0], base, GMAC_ADDR0_HIGH) && is_read32_of(p0[1], base, GMAC_ADDR0_LOW)
    &&& mac == chosen_mac(read_at(p0, 0), read_at(p0, 1))
    &&& clock_reset_ops(p1)
    &&& dma_reset_ops(p2, base)
    &&& tx_ring_ops(p3, m)
    &&& rx_ring_ops(p4, m)
    &&& p5 == config_writes(base, m, mac)
}

/// The last phases of the bring-up: PHY reset and auto-negotiation, the
/// MAC mode from the common abilities, the DMA flushed and started.
#[verifier::opaque]
pub open spec fn init_tail_phases(
    base: usize,
    p6: Seq<BusOp>,
    p7: Seq<BusOp>,
    p8: Seq<BusOp>,
    p9: Seq<BusOp>,
    p10: Seq<BusOp>,
    p11: Seq<BusOp>,
    p12: Seq<BusOp>,
    p13: Seq<BusOp>,
    p14: Seq<BusOp>,
) -> bool {
    let mode = link_mode(mdio_value(p11), mdio_value(p10));
    &&& mdio_write_ops(p6, base, PHY_ADDR, 0, 0x8000)
    &&& p7 == seq![BusOp::Delay { units: PHY_RESET_DELAY }]
    &&& reset_wait(p8, base)
    &&& mdio_write_ops(p9, base, PHY_ADDR, 0, 0x3300)
    &&& link_wait(p10, base)
    &&& mdio_read_ops(p11, base, PHY_ADDR, 4)
    &&& p12 == seq![
        BusOp::Write32 { base, offset: GMAC_MAC_CONTROL, value: mac_control_value(mode) },
        BusOp::Write32 { base, offset: GMAC_MMC_CNTRL, value: 1 },
        BusOp::Write32 { base, offset: DMA_OPERATION, value: op_start_value() },
    ]
    &&& any_poll(p13, base, DMA_OPERATION, OP_FTF)
    &&& p14.len() == 3
    &&& bits_rw(Seq::empty(), p14.take(2), base, DMA_OPERATION, OP_ST | OP_SR, true)
    &&& p14[2] == BusOp::Write32 { base, offset: DMA_RX_POLL, value: 1 }
}

/// `after` extends `t0 + acc`: it is `t0 + (acc + seg)` for the part `seg`
/// it added.
proof fn lemma_grow(t0: Seq<BusOp>, acc: Seq<BusOp>, after: Seq<BusOp>)
    requires
        (t0 + acc).len() <= after.len(),
        after.take((t0 + acc).len() as int) == t0 + acc,
    ensures
        after == t0 + (acc + after.skip((t0 + acc).len() as int)),
{
    let n = (t0 + acc).len() as int;
    let rhs = t0 + (acc + after.skip(n));
    assert forall|k: int| 0 <= k < after.len() implies #[trigger] after[k] == rhs[k] by {
        if k < n {
            assert(after[k] == after.take(n)[k]);
            if k < t0.len() {
            } else {
                assert(rhs[k] == (acc + after.skip(n))[k - t0.len()]);
            }
        } else {
            assert(after[k] == after.skip(n)[k - n]);
            assert(rhs[k] == (acc + after.skip(n))[k - t0.len()]);
        }
    }
    assert(after =~= rhs);
}

/// `after` is `before` followed by `seg` where `before` was `t0` followed
/// by the phases `ph`: so `after` is `t0` followed by `ph` and `seg`.
proof fn lemma_push_phase(t0: Seq<BusOp>, ph: Seq<Seq<BusOp>>, before: Seq<BusOp>, after: Seq<BusOp>)
    requires
        before == t0 + ph.flatten(),
        before.len() <= after.len(),
        after.take(before.len() as int) == before,
    ensures
        after == t0 + ph.push(after.skip(before.len() as int)).flatten(),
{
    ph.lemma_flatten_push(after.skip(before.len() as int));
    assert(after =~= before + after.skip(before.len() as int));
    assert(after =~= t0 + ph.push(after.skip(before.len() as int)).flatten());
}

/// The frame length of a receive status word: RDES0's length field less
/// the 4-byte FCS (when it holds at least that), at most a buffer.
pub open spec fn rx_frame_len(des0: u32) -> usize {
    let fl = ((des0 & RDES0_FL_MASK) >> RDES0_FL_SHIFT) as usize;
    let n = if fl >= 4 { (fl - 4) as usize } else { fl };
    if n < BUF_SIZE { n } else { BUF_SIZE }
}

/// A receive status word holds the frame length, FCS included, in its 14
/// bits from bit 16 (the ownership and status bits around it do not count);
/// a received frame is that length less the 4-byte FCS, at most a buffer.
pub proof fn lemma_rx_frame_len_of_field(top: u32, fl: u32, low: u32)
    requires
        top < 4,
        4 <= fl < 0x4000,
        low < 0x1_0000,
    ensures
        rx_frame_len((top * 0x4000_0000 + fl * 0x1_0000 + low) as u32) == if fl - 4 < BUF_SIZE {
            (fl - 4) as usize
        } else {
            BUF_SIZE
        },
{
    let d = (top * 0x4000_0000 + fl * 0x1_0000 + low) as u32;
    assert((d & (0x3FFFu32 << 16u32)) >> 16u32 == fl) by (bit_vector)
        requires
            d == top * 0x4000_0000 + fl * 0x1_0000 + low,
            top < 4,
            fl < 0x4000,
            low < 0x1_0000,
    ;
}

/// TDES1 for a frame of `len` bytes in descriptor `i`: interrupt on
/// completion, first and last segment, the size field, end of ring on the
/// last descriptor.
pub open spec fn tdes1_value(i: int, len: usize) -> u32 {
    TDES1_IC | TDES1_FS | TDES1_LS | ((len as u32) & TDES1_TBS1_MASK) | (if i == TX_RING_SIZE - 1 {
        TDES1_TER
    } else {
        0
    })
}

/// The accesses of a transmit into descriptor `h` after its own bit was
/// seen clear: the packet copied into the buffer (padded with zeros to the
/// minimum frame), the buffer written back, the descriptor filled and
/// handed to the DMA, the buffer written back again, transmit polled.
pub open spec fn tx_fill_ops(base: usize, m: EthDmaRegion, h: int, pkt: Seq<u8>) -> Seq<BusOp> {
    let n = pkt.len() as usize;
    let b = tx_buf_at(m, h);
    let d = tx_desc_at(m, h);
    let len = if n < MIN_ETH_FRAME { MIN_ETH_FRAME } else { n };
    seq![BusOp::CopyToPhys { addr: b, len: n, data: pkt }] + (if n < MIN_ETH_FRAME {
        seq![
            BusOp::CopyToPhys {
                addr: (b + n) as usize,
                len: (MIN_ETH_FRAME - n) as usize,
                data: Seq::new((MIN_ETH_FRAME - n) as nat, |i: int| 0u8),
            },
        ]
    } else {
        Seq::empty()
    }) + seq![
        BusOp::CacheClean { addr: b, len },
        BusOp::Write32 { base: d, offset: 8, value: b as u32 },
        BusOp::Write32 { base: d, offset: 4, value: tdes1_value(h, len) },
        BusOp::MemoryFence,
        BusOp::Write32 { base: d, offset: 0, value: TDES0_OWN },
        BusOp::CacheClean { addr: d, len: DESC_STRIDE },
        BusOp::CacheClean { addr: b, len },
        BusOp::Write32 { base, offset: DMA_TX_POLL, value: 1 },
    ]
}

/// Looking at transmit descriptor `i`: its cache line discarded, TDES0 read.
pub open spec fn tx_peek(ops: Seq<BusOp>, m: EthDmaRegion, i: int) -> bool {
    &&& ops.len() == 2
    &&& ops[0] == BusOp::CacheInvalidate { addr: tx_desc_at(m, i), len: DESC_STRIDE }
    &&& is_read32_of(ops[1], tx_desc_at(m, i), 0)
}

/// The first `k` descriptors from `tail` were peeked, found done (own bit
/// clear) and short of `head`.
pub open spec fn reclaimed(ops: Seq<BusOp>, m: EthDmaRegion, tail: int, head: int, k: int) -> bool {
    forall|j: int|
        0 <= j < k ==> #[trigger] tx_peek(ops.subrange(2 * j, 2 * j + 2), m, (tail + j) % (TX_RING_SIZE as int))
            && read_at(ops, 2 * j + 1) & TDES0_OWN == 0 && (tail + j) % (TX_RING_SIZE as int) != head
}

/// Reclaiming from `tail` towards `head`: `k` descriptors found done (own
/// bit clear), ending at `tail1`; then either `head` was reached or one more
/// descriptor was found still owned by the DMA.
pub open spec fn reclaim_ops(ops: Seq<BusOp>, m: EthDmaRegion, tail: int, head: int, k: int, tail1: int) -> bool {
    &&& 0 <= k
    &&& tail1 == (tail + k) % (TX_RING_SIZE as int)
    &&& reclaimed(ops, m, tail, head, k)
    &&& {
        ||| (tail1 == head && ops.len() == 2 * k)
        ||| (tail1 != head && ops.len() == 2 * k + 2 && tx_peek(ops.subrange(2 * k, 2 * k + 2), m, tail1)
            && read_at(ops, 2 * k + 1) & TDES0_OWN != 0)
    }
}

/// Waits for the PHY soft reset to clear (BMCR bit 15).
fn wait_phy_reset<B: RegisterBus>(mmio: &mut Mmio<B>, g: usize)
    ensures
        old(mmio).trace().len() <= final(mmio).trace().len(),
        final(mmio).trace().take(old(mmio).trace().len() as int) == old(mmio).trace(),
        reset_wait(final(mmio).trace().skip(old(mmio).trace().len() as int), g),
{
    proof {
        reveal(reset_wait);
    }
    let ghost t0 = mmio.trace();
    let ghost mut items: Seq<Seq<BusOp>> = Seq::empty();
    let mut n: u32 = 0;
    assert(mmio.trace() =~= t0 + items.flatten());
    loop
        invariant
            t0 == old(mmio).trace(),
            n < PHY_RESET_POLLS,
            items.len() == n,
            mmio.trace() == t0 + items.flatten(),
            forall|i: int| 0 <= i < n ==> #[trigger] reset_busy(items[i], g),
        decreases PHY_RESET_POLLS - n,
    {
        let ghost tb = mmio.trace();
        let v = mdio_read(mmio, g, PHY_ADDR, 0);
        if v & 0x8000 == 0 {
            proof {
                let t = mmio.trace();
                lemma_push_phase(t0, items, tb, t);
                let item = t.skip(tb.len() as int);
                let all = items.push(item);
                assert(all.last() == item);
                assert(forall|i: int| 0 <= i < all.len() - 1 ==> all[i] == items[i]);
                assert(t.skip(t0.len() as int) =~= all.flatten());
                assert(t.take(t0.len() as int) =~= t0);
                assert(reset_items(t.skip(t0.len() as int), g, all));
                reveal(reset_wait);
            }
            return;
        }
        let ghost tr = mmio.trace();
        mmio.delay(PHY_RESET_POLL_DELAY);
        proof {
            let t = mmio.trace();
            assert(t.take(tb.len() as int) =~= tb);
            lemma_push_phase(t0, items, tb, t);
            let item = t.skip(tb.len() as int);
            assert(item.drop_last() =~= tr.skip(tb.len() as int));
            assert(reset_busy(item, g));
            items = items.push(item);
        }
        n = n + 1;
        if n == PHY_RESET_POLLS {
            proof {
                let t = mmio.trace();
                assert(t.skip(t0.len() as int) =~= items.flatten());
                assert(t.take(t0.len() as int) =~= t0);
                assert(reset_busy(items[items.len() - 1], g));
                assert(reset_items(t.skip(t0.len() as int), g, items));
                reveal(reset_wait);
            }
            return;
        }
    }
}

/// One link round: BMSR read twice; with the link up, BMCR and LPA read
/// and LPA returned; else the round delay.
fn link_round<B: RegisterBus>(mmio: &mut Mmio<B>, g: usize) -> (lpa: Option<u16>)
    ensures
        old(mmio).trace().len() < final(mmio).trace().len(),
        final(mmio).trace().take(old(mmio).trace().len() as int) == old(mmio).trace(),
        lpa is None ==> link_down(final(mmio).trace().skip(old(mmio).trace().len() as int), g),
        lpa matches Some(v) ==> link_up(final(mmio).trace().skip(old(mmio).trace().len() as int), g)
            && v == mdio_value(final(mmio).trace().skip(old(mmio).trace().len() as int)),
{
    let ghost tb = mmio.trace();
    let _ = mdio_read(mmio, g, PHY_ADDR, 1);
    let ghost t1 = mmio.trace();
    let bmsr = mdio_read(mmio, g, PHY_ADDR, 1);
    let ghost t2 = mmio.trace();
    if bmsr & 4 != 0 {
        let _ = mdio_read(mmio, g, PHY_ADDR, 0);
        let ghost t3 = mmio.trace();
        let lpa = mdio_read(mmio, g, PHY_ADDR, 5);
        proof {
            let t = mmio.trace();
            crate::mmio::lemma_segments(tb, t1, t2, t3, t);
            let item = t.skip(tb.len() as int);
            let p = t1.len() - tb.len();
            let q = t2.len() - tb.len();
            let r = t3.len() - tb.len();
            assert(link_up_split(item, g, p, q, r));
            assert(item[item.len() - 1] == t[t.len() - 1]);
            assert(t.skip(t3.len() as int)[t.skip(t3.len() as int).len() - 1] == t[t.len() - 1]);
        }
        return Some(lpa);
    }
    mmio.delay(LINK_POLL_DELAY);
    proof {
        let t = mmio.trace();
        assert(t.take(t2.len() as int) =~= t2);
        assert(t2.take(t2.len() as int) =~= t2);
        crate::mmio::lemma_segments(tb, t1, t2, t2, t);
        let item = t.skip(tb.len() as int);
        let p = t1.len() - tb.len();
        let q = t2.len() - tb.len();
        assert(item.subrange(p, q) =~= t2.skip(t1.len() as int));
        assert(link_down_split(item, g, p, q));
    }
    None
}

/// After every round saw the link down: BMCR, BMSR and LPA read; returns
/// LPA.
fn link_fallback_reads<B: RegisterBus>(mmio: &mut Mmio<B>, g: usize) -> (lpa: u16)
    ensures
        old(mmio).trace().len() < final(mmio).trace().len(),
        final(mmio).trace().take(old(mmio).trace().len() as int) == old(mmio).trace(),
        link_fallback(final(mmio).trace().skip(old(mmio).trace().len() as int), g),
        lpa == mdio_value(final(mmio).trace().skip(old(mmio).trace().len() as int)),
{
    let ghost tb = mmio.trace();
    let _ = mdio_read(mmio, g, PHY_ADDR, 0);
    let ghost t1 = mmio.trace();
    let _ = mdio_read(mmio, g, PHY_ADDR, 1);
    let ghost t2 = mmio.trace();
    let lpa = mdio_read(mmio, g, PHY_ADDR, 5);
    proof {
        let t = mmio.trace();
        assert(t.take(t.len() as int) =~= t);
        crate::mmio::lemma_segments(tb, t1, t2, t, t);
        let item = t.skip(tb.len() as int);
        let p = t1.len() - tb.len();
        let q = t2.len() - tb.len();
        assert(item.skip(q) =~= t.skip(t2.len() as int));
        assert(link_fallback_split(item, g, p, q));
        assert(item[item.len() - 1] == t[t.len() - 1]);
        assert(t.skip(t2.len() as int)[t.skip(t2.len() as int).len() - 1] == t[t.len() - 1]);
    }
    lpa
}

/// Waits for the link (BMSR bit 2, read twice as it latches low) for at
/// most [`LINK_POLLS`] rounds; returns the partner abilities (LPA) read at
/// the end.
fn wait_link<B: RegisterBus>(mmio: &mut Mmio<B>, g: usize) -> (lpa: u16)
    ensures
        old(mmio).trace().len() < final(mmio).trace().len(),
        final(mmio).trace().take(old(mmio).trace().len() as int) == old(mmio).trace(),
        link_wait(final(mmio).trace().skip(old(mmio).trace().len() as int), g),
        lpa == mdio_value(final(mmio).trace().skip(old(mmio).trace().len() as int)),
{
    proof {
        reveal(link_wait);
    }
    let ghost t0 = mmio.trace();
    let ghost mut items: Seq<Seq<BusOp>> = Seq::empty();
    let mut n: u32 = 0;
    assert(mmio.trace() =~= t0 + items.flatten());
    while n < LINK_POLLS
        invariant
            t0 == old(mmio).trace(),
            n <= LINK_POLLS,
            items.len() == n,
            mmio.trace() == t0 + items.flatten(),
            forall|i: int| 0 <= i < n ==> #[trigger] link_down(items[i], g),
        decreases LINK_POLLS - n,
    {
        let ghost tb = mmio.trace();
        let r = link_round(mmio, g);
        proof {
            lemma_push_phase(t0, items, tb, mmio.trace());
        }
        let ghost item = mmio.trace().skip(tb.len() as int);
        match r {
            Some(lpa) => {
                proof {
                    let t = mmio.trace();
                    let all = items.push(item);
                    assert(all.last() == item);
                    assert(forall|i: int| 0 <= i < all.len() - 1 ==> all[i] == items[i]);
                    let seg = t.skip(t0.len() as int);
                    assert(seg =~= all.flatten());
                    assert(t.take(t0.len() as int) =~= t0);
                    assert(link_items(seg, g, all));
                    assert(seg[seg.len() - 1] == t[t.len() - 1]);
                    assert(item[item.len() - 1] == t[t.len() - 1]);
                    reveal(link_wait);
                }
                return lpa;
            },
            None => {
                proof {
                    items = items.push(item);
                }
            },
        }
        n = n + 1;
    }
    let ghost tb = mmio.trace();
    let lpa = link_fallback_reads(mmio, g);
    proof {
        let t = mmio.trace();
        lemma_push_phase(t0, items, tb, t);
        let item = t.skip(tb.len() as int);
        let all = items.push(item);
        assert(all.last() == item);
        assert(forall|i: int| 0 <= i < all.len() - 1 ==> all[i] == items[i]);
        let seg = t.skip(t0.len() as int);
        assert(seg =~= all.flatten());
        assert(t.take(t0.len() as int) =~= t0);
        assert(link_items(seg, g, all));
        assert(seg[seg.len() - 1] == t[t.len() - 1]);
        assert(item[item.len() - 1] == t[t.len() - 1]);
    }
    lpa
}

/// Opens the Ethernet clock gates and releases the MAC and PHY resets,
/// then lets them settle.
fn enable_clocks_and_release_resets<B: RegisterBus>(mmio: &mut Mmio<B>)
    ensures
        old(mmio).trace().len() <= final(mmio).trace().len(),
        final(mmio).trace().take(old(mmio).trace().len() as int) == old(mmio).trace(),
        clock_reset_ops(final(mmio).trace().skip(old(mmio).trace().len() as int)),
{
    proof {
        reveal(clock_reset_ops);
    }
    let v = mmio.read32(CV181X_SYS_CLOCK_BASE, REG_CLK_EN_0);
    mmio.write32(CV181X_SYS_CLOCK_BASE, REG_CLK_EN_0, v | CLKEN0_ETH_MASK);
    let v0 = mmio.read32(RSTC_BASE, SOFT_RSTN_0);
    mmio.write32(RSTC_BASE, SOFT_RSTN_0, v0 | SOFT_RSTN0_ETH0);
    let v3 = mmio.read32(RSTC_BASE, SOFT_RSTN_3);
    mmio.write32(RSTC_BASE, SOFT_RSTN_3, v3 | SOFT_RSTN3_EPHY_MASK);
    mmio.delay(RESET_SETTLE_DELAY);
    proof {
        let t = mmio.trace();
        let n = old(mmio).trace().len() as int;
        assert(t.take(n) =~= old(mmio).trace());
        let seg = t.skip(n);
        assert(seg[0] == BusOp::Read32 { base: CV181X_SYS_CLOCK_BASE, offset: REG_CLK_EN_0, value: v });
        assert(seg[2] == BusOp::Read32 { base: RSTC_BASE, offset: SOFT_RSTN_0, value: v0 });
        assert(seg[4] == BusOp::Read32 { base: RSTC_BASE, offset: SOFT_RSTN_3, value: v3 });
    }
}

/// Starts the DMA: store-and-forward and flush written, the flush polled
/// until done, then transmit and receive started and receive polled.
fn start_dma_flush<B: RegisterBus>(mmio: &mut Mmio<B>, base: usize)
    ensures
        old(mmio).trace().len() <= final(mmio).trace().len(),
        final(mmio).trace().take(old(mmio).trace().len() as int) == old(mmio).trace(),
        any_poll(final(mmio).trace().skip(old(mmio).trace().len() as int), base, DMA_OPERATION, OP_FTF),
{
    proof {
        reveal(any_poll);
    }
    let _ = mmio.poll32_until_clear(base, DMA_OPERATION, OP_FTF, DMA_POLL_LIMIT);
}

fn start_dma_run<B: RegisterBus>(mmio: &mut Mmio<B>, base: usize)
    ensures
        old(mmio).trace().len() <= final(mmio).trace().len(),
        final(mmio).trace().take(old(mmio).trace().len() as int) == old(mmio).trace(),
        ({
            let seg = final(mmio).trace().skip(old(mmio).trace().len() as int);
            &&& seg.len() == 3
            &&& bits_rw(Seq::empty(), seg.take(2), base, DMA_OPERATION, OP_ST | OP_SR, true)
            &&& seg[2] == BusOp::Write32 { base, offset: DMA_RX_POLL, value: 1 }
        }),
{
    let ghost t0 = mmio.trace();
    mmio.update_bits32(base, DMA_OPERATION, OP_ST | OP_SR, true);
    let ghost t1 = mmio.trace();
    mmio.write32(base, DMA_RX_POLL, 1);
    proof {
        let t = mmio.trace();
        let raw = read_at(t1, t0.len() as int);
        assert(t.take(t0.len() as int) =~= t0);
        let seg = t.skip(t0.len() as int);
        assert(seg.take(2) =~= Seq::<BusOp>::empty() + seq![
            BusOp::Read32 { base, offset: DMA_OPERATION, value: raw },
            BusOp::Write32 { base, offset: DMA_OPERATION, value: raw | (OP_ST | OP_SR) },
        ]);
        assert(read_at(seg.take(2), 0) == raw);
    }
}

/// The speed and duplex chosen from ANAR and LPA.
pub fn select_link_mode(anar: u16, lpa: u16) -> (mode: (bool, bool))
    ensures
        mode == link_mode(anar, lpa),
{
    let common = anar & lpa;
    if common & 0x100 != 0 {
        (true, true)
    } else if common & 0x80 != 0 {
        (true, false)
    } else if common & 0x40 != 0 {
        (false, true)
    } else if common & 0x20 != 0 {
        (false, false)
    } else {
        (true, true)
    }
}

/// The MAC control value for a speed and duplex.
pub fn mac_control_for(mode: (bool, bool)) -> (v: u32)
    ensures
        v == mac_control_value(mode),
{
    MAC_CONTROL_PS | MAC_CONTROL_TE | MAC_CONTROL_RE | (if mode.0 { MAC_CONTROL_FES } else { 0 }) | (
    if mode.1 {
        MAC_CONTROL_DM
    } else {
        0
    })
}

/// The address to use given the one read from the hardware.
pub fn choose_mac(hw: [u8; 6]) -> (mac: [u8; 6])
    ensures
        mac@ == (if hw@ == seq![0u8, 0, 0, 0, 0, 0] || hw@ == seq![0xffu8, 0xff, 0xff, 0xff, 0xff, 0xff] {
            default_mac()
        } else {
            hw@
        }),
{
    let zero = hw[0] == 0 && hw[1] == 0 && hw[2] == 0 && hw[3] == 0 && hw[4] == 0 && hw[5] == 0;
    let ones = hw[0] == 0xff && hw[1] == 0xff && hw[2] == 0xff && hw[3] == 0xff && hw[4] == 0xff && hw[5] == 0xff;
    proof {
        if zero {
            assert(hw@ =~= seq![0u8, 0, 0, 0, 0, 0]);
        } else {
            assert(hw@ != seq![0u8, 0, 0, 0, 0, 0] || hw@[0] == 0);
        }
        if ones {
            assert(hw@ =~= seq![0xffu8, 0xff, 0xff, 0xff, 0xff, 0xff]);
        }
        if hw@ == seq![0u8, 0, 0, 0, 0, 0] {
            assert(hw@[0] == 0 && hw@[1] == 0 && hw@[2] == 0 && hw@[3] == 0 && hw@[4] == 0 && hw@[5] == 0);
        }
        if hw@ == seq![0xffu8, 0xff, 0xff, 0xff, 0xff, 0xff] {
            assert(hw@[0] == 0xff && hw@[1] == 0xff && hw@[2] == 0xff && hw@[3] == 0xff && hw@[4] == 0xff && hw@[5] == 0xff);
        }
    }
    if zero || ones {
        let d: [u8; 6] = [0x00, 0x50, 0x43, 0x02, 0x02, 0x02];
        assert(d@ =~= default_mac());
        d
    } else {
        hw
    }
}

/// Looking at receive descriptor `i`: its cache line discarded, RDES0 read.
pub open spec fn rx_peek(ops: Seq<BusOp>, m: EthDmaRegion, i: int) -> bool {
    &&& ops.len() == 2
    &&& ops[0] == BusOp::CacheInvalidate { addr: rx_desc_at(m, i), len: DESC_STRIDE }
    &&& is_read32_of(ops[1], rx_desc_at(m, i), 0)
}

/// Handing receive descriptor `slot` back: the descriptor given to the DMA,
/// the receive interrupt acknowledged, receive polled.
pub open spec fn requeue_ops(base: usize, m: EthDmaRegion, slot: int) -> Seq<BusOp> {
    rx_desc_give(m, slot) + seq![
        BusOp::Write32 { base, offset: DMA_STATUS, value: DMA_STATUS_RI | DMA_STATUS_NIS },
        BusOp::Write32 { base, offset: DMA_RX_POLL, value: 1 },
    ]
}

/// The counter after one more frame (wrapping).
pub open spec fn bump(n: u32) -> u32 {
    if n == u32::MAX { 0 } else { (n + 1) as u32 }
}

pub open spec fn next_index(i: int) -> int {
    (i + 1) % (TX_RING_SIZE as int)
}

/// A transmit split at `c` (end of the reclaim, which advanced the tail by
/// `k` to `tail1`): descriptor `head` peeked; owned by the DMA means
/// `Again` and nothing else, free means the frame of `n` bytes is queued.
pub open spec fn tx_split(
    seg: Seq<BusOp>,
    base: usize,
    m: EthDmaRegion,
    tail0: int,
    head: int,
    tail1: int,
    pkt: Seq<u8>,
    r: EthResult<()>,
    k: int,
    c: int,
) -> bool {
    let own = read_at(seg, c + 1) & TDES0_OWN != 0;
    &&& 0 <= c
    &&& c + 2 <= seg.len()
    &&& reclaim_ops(seg.take(c), m, tail0, head, k, tail1)
    &&& tx_peek(seg.subrange(c, c + 2), m, head)
    &&& own ==> r == Err::<(), EthError>(EthError::Again) && seg.len() == c + 2
    &&& !own ==> r is Ok && seg.skip(c + 2) == tx_fill_ops(base, m, head, pkt)
}

/// The driver of one controller.
pub struct CvitekEthNic {
    base: usize,
    mac_addr: [u8; 6],
    mem: EthDmaRegion,
    tx_head: usize,
    tx_tail: usize,
    rx_cur: usize,
    rx_count: u32,
    tx_count: u32,
}

/// A received frame: `len` bytes (FCS removed) in receive buffer `slot`,
/// at `addr`, owned by the caller until it is handed back with
/// [`CvitekEthNic::release_rx`].
#[derive(Debug, Clone, Copy, PartialEq, Eq, Structural)]
pub struct RxToken {
    pub slot: usize,
    pub addr: usize,
    pub len: usize,
}

impl RxToken {
    /// The frame's bytes, read from its buffer.
    pub fn frame<B: RegisterBus>(&self, mmio: &mut Mmio<B>) -> (bytes: Vec<u8>)
        ensures
            bytes@.len() == self.len,
            exists|data: Seq<u8>|
                #![trigger fit_len(data, self.len as int)]
                final(mmio).trace() == old(mmio).trace().push(BusOp::CopyFromPhys { addr: self.addr, len: self.len, data })
                && bytes@ == fit_len(data, self.len as int),
    {
        mmio.copy_from_phys(self.addr, self.len)
    }

    pub fn len(&self) -> (n: usize)
        ensures
            n == self.len,
    {
        self.len
    }

    pub fn is_empty(&self) -> (b: bool)
        ensures
            b == (self.len == 0),
    {
        self.len == 0
    }
}

impl CvitekEthNic {
    pub closed spec fn base(&self) -> usize {
        self.base
    }

    pub closed spec fn mac(&self) -> Seq<u8> {
        self.mac_addr@
    }

    pub closed spec fn region(&self) -> EthDmaRegion {
        self.mem
    }

    pub closed spec fn head(&self) -> int {
        self.tx_head as int
    }

    pub closed spec fn tail(&self) -> int {
        self.tx_tail as int
    }

    pub closed spec fn cur(&self) -> int {
        self.rx_cur as int
    }

    pub closed spec fn tx_frames(&self) -> u32 {
        self.tx_count
    }

    pub closed spec fn rx_frames(&self) -> u32 {
        self.rx_count
    }

    /// The ring cursors are descriptor indices and the region is in range.
    pub closed spec fn wf(&self) -> bool {
        &&& region_ok(self.mem)
        &&& self.tx_head < TX_RING_SIZE
        &&& self.tx_tail < TX_RING_SIZE
        &&& self.rx_cur < RX_RING_SIZE
    }

    fn tx_desc(&self, i: usize) -> (a: usize)
        requires
            self.wf(),
            i < TX_RING_SIZE,
        ensures
            a == tx_desc_at(self.region(), i as int),
    {
        self.mem.tx_desc + DESC_STRIDE * i
    }

    fn rx_desc(&self, i: usize) -> (a: usize)
        requires
            self.wf(),
            i < RX_RING_SIZE,
        ensures
            a == rx_desc_at(self.region(), i as int),
    {
        self.mem.rx_desc + DESC_STRIDE * i
    }

    fn tx_buf(&self, i: usize) -> (a: usize)
        requires
            self.wf(),
            i < TX_RING_SIZE,
        ensures
            a == tx_buf_at(self.region(), i as int),
            a + BUF_SIZE <= usize::MAX,
    {
        self.mem.tx_buf + BUF_SIZE * i
    }

    fn rx_buf(&self, i: usize) -> (a: usize)
        requires
            self.wf(),
            i < RX_RING_SIZE,
        ensures
            a == rx_buf_at(self.region(), i as int),
    {
        self.mem.rx_buf + BUF_SIZE * i
    }

    /// Number of transmit descriptors.
    pub fn tx_queue_size() -> (n: usize)
        ensures
            n == TX_RING_SIZE,
    {
        TX_RING_SIZE
    }

    /// Number of receive descriptors.
    pub fn rx_queue_size() -> (n: usize)
        ensures
            n == RX_RING_SIZE,
    {
        RX_RING_SIZE
    }

    /// Largest frame: one buffer.
    pub fn max_frame_len() -> (n: usize)
        ensures
            n == BUF_SIZE,
    {
        BUF_SIZE
    }

    /// The register writes after the rings (see [`config_writes`]).
    fn configure<B: RegisterBus>(&self, mmio: &mut Mmio<B>)
        ensures
            final(mmio).trace() == old(mmio).trace() + config_writes(self.base(), self.region(), self.mac()),
    {
        let base = self.base;
        mmio.write32(base, DMA_BUS_MODE, BUS_MODE_VALUE);
        mmio.write32(base, DMA_TX_BASE, self.mem.tx_desc as u32);
        mmio.write32(base, DMA_RX_BASE, self.mem.rx_desc as u32);
        mmio.write32(base, GMAC_INT_MASK, 0x60F);
        mmio.write32(base, DMA_INTR_ENA, 0);
        let ghost t1 = mmio.trace();
        self.set_mac_hw(mmio, &self.mac_addr);
        mmio.write32(base, GMAC_FRAME_FILTER, FRAME_FILTER_PR | FRAME_FILTER_RA);
        mmio.write32(base, GMAC_HASH_HIGH, 0xFFFF_FFFF);
        mmio.write32(base, GMAC_HASH_LOW, 0xFFFF_FFFF);
        assert(mmio.trace() =~= old(mmio).trace() + config_writes(self.base(), self.region(), self.mac()));
    }

    /// Full bring-up of the controller at `base` with its rings and buffers
    /// in `mem`: the MAC address from the hardware (a fixed one when it
    /// reads all zeros or all ones), clocks and resets, DMA reset, rings,
    /// bus mode and filters, PHY reset and auto-negotiation, MAC speed and
    /// duplex from the common abilities, then the DMA started.  Every step
    /// is stated by [`init_phases`].
    #[verifier::rlimit(100)]
    #[verifier::spinoff_prover]
    pub fn init<B: RegisterBus>(mmio: &mut Mmio<B>, base: usize, mem: EthDmaRegion) -> (r: EthResult<Self>)
        requires
            region_ok(mem),
        ensures
            r matches Ok(nic) && nic.wf() && nic.base() == base && nic.region() == mem && nic.head() == 0
                && nic.tail() == 0 && nic.cur() == 0 && nic.tx_frames() == 0 && nic.rx_frames() == 0
                && final(mmio).trace().take(old(mmio).trace().len() as int) == old(mmio).trace()
                && exists|
                p0: Seq<BusOp>,
                p1: Seq<BusOp>,
                p2: Seq<BusOp>,
                p3: Seq<BusOp>,
                p4: Seq<BusOp>,
                p5: Seq<BusOp>,
                p6: Seq<BusOp>,
                p7: Seq<BusOp>,
                p8: Seq<BusOp>,
                p9: Seq<BusOp>,
                p10: Seq<BusOp>,
                p11: Seq<BusOp>,
                p12: Seq<BusOp>,
                p13: Seq<BusOp>,
                p14: Seq<BusOp>,
            |
                #[trigger] init_phases(
                    final(mmio).trace().skip(old(mmio).trace().len() as int),
                    base,
                    mem,
                    nic.mac(),
                    p0,
                    p1,
                    p2,
                    p3,
                    p4,
                    p5,
                    p6,
                    p7,
                    p8,
                    p9,
                    p10,
                    p11,
                    p12,
                    p13,
                    p14,
                ),
    {
        let ghost t0 = mmio.trace();
        let (nic, gh) = Self::init_head(mmio, base, mem);
        let ghost t1 = mmio.trace();
        let gt = Self::init_tail(mmio, base);
        proof {
            let t = mmio.trace();
            let h = gh@;
            let g = gt@;
            assert(t.take(t1.len() as int).take(t0.len() as int) =~= t.take(t0.len() as int));
            assert(t.take(t0.len() as int) =~= t1.take(t0.len() as int));
            assert(t.take(t0.len() as int) =~= t0);
            assert(t.skip(t0.len() as int) =~= t1.skip(t0.len() as int) + t.skip(t1.len() as int));
            assert(t.skip(t0.len() as int) =~= h[0] + h[1] + h[2] + h[3] + h[4] + h[5] + g[0] + g[1] + g[2] + g[3]
                + g[4] + g[5] + g[6] + g[7] + g[8]);
            assert(init_phases(t.skip(t0.len() as int), base, mem, nic.mac(), h[0], h[1], h[2], h[3], h[4], h[5],
                g[0], g[1], g[2], g[3], g[4], g[5], g[6], g[7], g[8])) by {
                reveal(init_phases);
            }
        }
        Ok(nic)
    }

    /// The first phases of [`CvitekEthNic::init`]; the ghost result lists them.
    #[verifier::rlimit(100)]
    fn init_head<B: RegisterBus>(mmio: &mut Mmio<B>, base: usize, mem: EthDmaRegion) -> (r: (
        Self,
        Ghost<Seq<Seq<BusOp>>>,
    ))
        requires
            region_ok(mem),
        ensures
            r.0.wf() && r.0.base() == base && r.0.region() == mem && r.0.head() == 0 && r.0.tail() == 0
                && r.0.cur() == 0 && r.0.tx_frames() == 0 && r.0.rx_frames() == 0,
            final(mmio).trace().len() >= old(mmio).trace().len(),
            final(mmio).trace().take(old(mmio).trace().len() as int) == old(mmio).trace(),
            r.1@.len() == 6,
            final(mmio).trace().skip(old(mmio).trace().len() as int) == r.1@[0] + r.1@[1] + r.1@[2] + r.1@[3]
                + r.1@[4] + r.1@[5],
            init_head_phases(base, mem, r.0.mac(), r.1@[0], r.1@[1], r.1@[2], r.1@[3], r.1@[4], r.1@[5]),
    {
        let ghost t0 = mmio.trace();
        let mut nic = CvitekEthNic {
            base,
            mac_addr: [0; 6],
            mem,
            tx_head: 0,
            tx_tail: 0,
            rx_cur: 0,
            rx_count: 0,
            tx_count: 0,
        };
        let hw = nic.read_mac_from_hw(mmio);
        let ghost p0 = mmio.trace().skip(t0.len() as int);
        let ghost acc = p0;
        proof { assert(mmio.trace() =~= t0 + acc); }
        nic.mac_addr = choose_mac(hw);
        enable_clocks_and_release_resets(mmio);
        let ghost p1 = mmio.trace().skip((t0 + acc).len() as int);
        proof { lemma_grow(t0, acc, mmio.trace()); acc = acc + p1; }
        nic.dma_reset(mmio);
        let ghost p2 = mmio.trace().skip((t0 + acc).len() as int);
        proof { lemma_grow(t0, acc, mmio.trace()); acc = acc + p2; }
        nic.setup_tx_ring(mmio);
        let ghost p3 = mmio.trace().skip((t0 + acc).len() as int);
        proof { lemma_grow(t0, acc, mmio.trace()); acc = acc + p3; }
        nic.setup_rx_ring(mmio);
        let ghost p4 = mmio.trace().skip((t0 + acc).len() as int);
        proof { lemma_grow(t0, acc, mmio.trace()); acc = acc + p4; }
        let ghost tb = mmio.trace();
        nic.configure(mmio);
        let ghost p5 = mmio.trace().skip((t0 + acc).len() as int);
        proof {
            assert(mmio.trace().take(tb.len() as int) =~= tb);
            lemma_grow(t0, acc, mmio.trace());
            assert(p5 =~= config_writes(base, mem, nic.mac()));
            acc = acc + p5;
            let t = mmio.trace();
            assert(t.take(t0.len() as int) =~= t0);
            assert(t.skip(t0.len() as int) =~= acc);
            assert(init_head_phases(base, mem, nic.mac(), p0, p1, p2, p3, p4, p5)) by {
                reveal(init_head_phases);
            }
        }
        let ghost ps = seq![p0, p1, p2, p3, p4, p5];
        (nic, Ghost(ps))
    }

    /// The last phases of [`CvitekEthNic::init`]; the ghost result lists them.
    #[verifier::rlimit(100)]
    fn init_tail<B: RegisterBus>(mmio: &mut Mmio<B>, base: usize) -> (r: Ghost<Seq<Seq<BusOp>>>)
        ensures
            final(mmio).trace().len() >= old(mmio).trace().len(),
            final(mmio).trace().take(old(mmio).trace().len() as int) == old(mmio).trace(),
            r@.len() == 9,
            final(mmio).trace().skip(old(mmio).trace().len() as int) == r@[0] + r@[1] + r@[2] + r@[3] + r@[4]
                + r@[5] + r@[6] + r@[7] + r@[8],
            init_tail_phases(base, r@[0], r@[1], r@[2], r@[3], r@[4], r@[5], r@[6], r@[7], r@[8]),
    {
        let ghost t0 = mmio.trace();
        let ghost acc: Seq<BusOp> = Seq::empty();
        proof { assert(mmio.trace() =~= t0 + acc); }
        mdio_write(mmio, base, PHY_ADDR, 0, 0x8000);
        let ghost p6 = mmio.trace().skip((t0 + acc).len() as int);
        proof { lemma_grow(t0, acc, mmio.trace()); acc = acc + p6; }
        let ghost tb = mmio.trace();
        mmio.delay(PHY_RESET_DELAY);
        let ghost p7 = mmio.trace().skip((t0 + acc).len() as int);
        proof {
            assert(mmio.trace().take(tb.len() as int) =~= tb);
            lemma_grow(t0, acc, mmio.trace());
            assert(p7 =~= seq![BusOp::Delay { units: PHY_RESET_DELAY }]);
            acc = acc + p7;
        }
        wait_phy_reset(mmio, base);
        let ghost p8 = mmio.trace().skip((t0 + acc).len() as int);
        proof { lemma_grow(t0, acc, mmio.trace()); acc = acc + p8; }
        mdio_write(mmio, base, PHY_ADDR, 0, 0x3300);
        let ghost p9 = mmio.trace().skip((t0 + acc).len() as int);
        proof { lemma_grow(t0, acc, mmio.trace()); acc = acc + p9; }
        let lpa = wait_link(mmio, base);
        let ghost p10 = mmio.trace().skip((t0 + acc).len() as int);
        proof { lemma_grow(t0, acc, mmio.trace()); acc = acc + p10; }
        let anar = mdio_read(mmio, base, PHY_ADDR, 4);
        let ghost p11 = mmio.trace().skip((t0 + acc).len() as int);
        proof { lemma_grow(t0, acc, mmio.trace()); acc = acc + p11; }
        let mode = select_link_mode(anar, lpa);
        let mc = mac_control_for(mode);
        let ghost tb = mmio.trace();
        mmio.write32(base, GMAC_MAC_CONTROL, mc);
        mmio.write32(base, GMAC_MMC_CNTRL, 0x01);
        mmio.write32(base, DMA_OPERATION, OP_TSF | OP_RSF | OP_OSF | OP_FTF);
        let ghost p12 = mmio.trace().skip((t0 + acc).len() as int);
        proof {
            assert(mmio.trace().take(tb.len() as int) =~= tb);
            lemma_grow(t0, acc, mmio.trace());
            assert(p12 =~= seq![
                BusOp::Write32 { base, offset: GMAC_MAC_CONTROL, value: mac_control_value(link_mode(mdio_value(p11), mdio_value(p10))) },
                BusOp::Write32 { base, offset: GMAC_MMC_CNTRL, value: 1 },
                BusOp::Write32 { base, offset: DMA_OPERATION, value: op_start_value() },
            ]);
            acc = acc + p12;
        }
        start_dma_flush(mmio, base);
        let ghost p13 = mmio.trace().skip((t0 + acc).len() as int);
        proof { lemma_grow(t0, acc, mmio.trace()); acc = acc + p13; }
        start_dma_run(mmio, base);
        let ghost p14 = mmio.trace().skip((t0 + acc).len() as int);
        proof {
            lemma_grow(t0, acc, mmio.trace());
            acc = acc + p14;
            let t = mmio.trace();
            assert(t.take(t0.len() as int) =~= t0);
            assert(t.skip(t0.len() as int) =~= acc);
            assert(acc =~= p6 + p7 + p8 + p9 + p10 + p11 + p12 + p13 + p14);
            assert(init_tail_phases(base, p6, p7, p8, p9, p10, p11, p12, p13, p14)) by {
                reveal(init_tail_phases);
            }
        }
        let ghost ps = seq![p6, p7, p8, p9, p10, p11, p12, p13, p14];
        Ghost(ps)
    }

    /// The MAC address in use.
    pub fn mac_address(&self) -> (m: [u8; 6])
        ensures
            m@ == self.mac(),
    {
        self.mac_addr
    }

    /// Whether the next transmit descriptor is free.
    pub fn can_transmit<B: RegisterBus>(&self, mmio: &mut Mmio<B>) -> (b: bool)
        requires
            self.wf(),
        ensures
            final(mmio).trace().take(old(mmio).trace().len() as int) == old(mmio).trace(),
            tx_peek(final(mmio).trace().skip(old(mmio).trace().len() as int), self.region(), self.head()),
            b == (read_at(final(mmio).trace(), old(mmio).trace().len() + 1int) & TDES0_OWN == 0),
    {
        let d = self.tx_desc(self.tx_head);
        mmio.dcache_invalidate(d, DESC_STRIDE);
        let des0 = mmio.read32(d, 0);
        proof {
            let t = mmio.trace();
            assert(t.take(old(mmio).trace().len() as int) =~= old(mmio).trace());
            assert(t[old(mmio).trace().len() + 1int] == BusOp::Read32 { base: d, offset: 0, value: des0 });
        }
        des0 & TDES0_OWN == 0
    }

    /// Whether the DMA has filled the current receive descriptor.
    pub fn can_receive<B: RegisterBus>(&self, mmio: &mut Mmio<B>) -> (b: bool)
        requires
            self.wf(),
        ensures
            final(mmio).trace().take(old(mmio).trace().len() as int) == old(mmio).trace(),
            rx_peek(final(mmio).trace().skip(old(mmio).trace().len() as int), self.region(), self.cur()),
            b == (read_at(final(mmio).trace(), old(mmio).trace().len() + 1int) & RDES0_OWN == 0),
    {
        let d = self.rx_desc(self.rx_cur);
        mmio.dcache_invalidate(d, DESC_STRIDE);
        let des0 = mmio.read32(d, 0);
        proof {
            let t = mmio.trace();
            assert(t.take(old(mmio).trace().len() as int) =~= old(mmio).trace());
            assert(t[old(mmio).trace().len() + 1int] == BusOp::Read32 { base: d, offset: 0, value: des0 });
        }
        des0 & RDES0_OWN == 0
    }

    /// Advances the transmit tail over the descriptors the DMA has finished,
    /// up to the head.
    pub fn reclaim_tx<B: RegisterBus>(&mut self, mmio: &mut Mmio<B>)
        requires
            old(self).wf(),
        ensures
            final(self).wf(),
            final(self).base() == old(self).base(),
            final(self).mac() == old(self).mac(),
            final(self).region() == old(self).region(),
            final(self).head() == old(self).head(),
            final(self).cur() == old(self).cur(),
            final(self).tx_frames() == old(self).tx_frames(),
            final(self).rx_frames() == old(self).rx_frames(),
            old(mmio).trace().len() <= final(mmio).trace().len(),
            final(mmio).trace().take(old(mmio).trace().len() as int) == old(mmio).trace(),
            exists|k: int| #[trigger] reclaim_ops(
                final(mmio).trace().skip(old(mmio).trace().len() as int),
                old(self).region(),
                old(self).tail(),
                old(self).head(),
                k,
                final(self).tail(),
            ),
    {
        let ghost t0 = mmio.trace();
        let ghost tail0 = self.tx_tail as int;
        let ghost mut k: int = 0;
        while self.tx_tail != self.tx_head
            invariant
                self.wf(),
                t0 == old(mmio).trace(),
                tail0 == old(self).tail(),
                self.base() == old(self).base(),
                self.mac() == old(self).mac(),
                self.region() == old(self).region(),
                self.head() == old(self).head(),
                self.cur() == old(self).cur(),
                self.tx_frames() == old(self).tx_frames(),
                self.rx_frames() == old(self).rx_frames(),
                0 <= k,
                self.tail() == (tail0 + k) % (TX_RING_SIZE as int),
                mmio.trace().len() == t0.len() + 2 * k,
                mmio.trace().take(t0.len() as int) == t0,
                reclaimed(mmio.trace().skip(t0.len() as int), self.region(), tail0, self.head(), k),
            decreases (self.tx_head + TX_RING_SIZE - self.tx_tail) % (TX_RING_SIZE as int),
        {
            let ghost tp = mmio.trace();
            let d = self.tx_desc(self.tx_tail);
            mmio.dcache_invalidate(d, DESC_STRIDE);
            let des0 = mmio.read32(d, 0);
            proof {
                let t = mmio.trace();
                let seg = t.skip(t0.len() as int);
                assert(t.take(t0.len() as int) =~= t0);
                assert(seg.subrange(2 * k, 2 * k + 2) =~= seq![
                    BusOp::CacheInvalidate { addr: d, len: DESC_STRIDE },
                    BusOp::Read32 { base: d, offset: 0, value: des0 },
                ]);
                assert(read_at(seg, 2 * k + 1) == des0);
                assert forall|j: int| 0 <= j < k implies #[trigger] tx_peek(seg.subrange(2 * j, 2 * j + 2), self.region(), (tail0 + j) % (TX_RING_SIZE as int))
                    && read_at(seg, 2 * j + 1) & TDES0_OWN == 0 && (tail0 + j) % (TX_RING_SIZE as int) != self.head() by {
                    assert(tx_peek(tp.skip(t0.len() as int).subrange(2 * j, 2 * j + 2), self.region(), (tail0 + j) % (TX_RING_SIZE as int)));
                    assert(seg.subrange(2 * j, 2 * j + 2) =~= tp.skip(t0.len() as int).subrange(2 * j, 2 * j + 2));
                    assert(seg[2 * j + 1] == tp.skip(t0.len() as int)[2 * j + 1]);
                }
            }
            if des0 & TDES0_OWN != 0 {
                proof {
                    let seg = mmio.trace().skip(t0.len() as int);
                    assert(reclaim_ops(seg, self.region(), tail0, self.head(), k, self.tail()));
                }
                return;
            }
            let ghost old_tail = self.tx_tail as int;
            self.tx_tail = (self.tx_tail + 1) % TX_RING_SIZE;
            proof {
                let seg = mmio.trace().skip(t0.len() as int);
                assert((tail0 + k + 1) % (TX_RING_SIZE as int) == ((tail0 + k) % (TX_RING_SIZE as int) + 1) % (TX_RING_SIZE as int));
                assert(tx_peek(seg.subrange(2 * k, 2 * k + 2), self.region(), (tail0 + k) % (TX_RING_SIZE as int)));
                assert(old_tail != self.head());
                k = k + 1;
                assert forall|j: int| 0 <= j < k implies #[trigger] tx_peek(seg.subrange(2 * j, 2 * j + 2), self.region(), (tail0 + j) % (TX_RING_SIZE as int))
                    && read_at(seg, 2 * j + 1) & TDES0_OWN == 0 && (tail0 + j) % (TX_RING_SIZE as int) != self.head() by {
                    if j < k - 1 {
                    } else {
                        assert(read_at(seg, 2 * j + 1) == des0);
                    }
                }
                assert(reclaimed(seg, self.region(), tail0, self.head(), k));
            }
        }
        proof {
            let seg = mmio.trace().skip(t0.len() as int);
            assert(reclaim_ops(seg, self.region(), tail0, self.head(), k, self.tail()));
        }
    }

    /// Copies `packet` into transmit buffer `idx` (padded), fills the
    /// descriptor, hands it to the DMA and polls transmit.
    fn fill_tx<B: RegisterBus>(&self, mmio: &mut Mmio<B>, idx: usize, packet: &[u8])
        requires
            self.wf(),
            idx < TX_RING_SIZE,
            packet@.len() <= BUF_SIZE,
        ensures
            final(mmio).trace() == old(mmio).trace() + tx_fill_ops(self.base(), self.region(), idx as int, packet@),
    {
        let d = self.tx_desc(idx);
        let n = packet.len();
        let b = self.tx_buf(idx);
        let ghost t0 = mmio.trace();
        mmio.copy_to_phys(b, packet, n);
        let mut len = n;
        let ghost t1 = mmio.trace();
        if n < MIN_ETH_FRAME {
            let zeros: Vec<u8> = vec![0u8; MIN_ETH_FRAME];
            mmio.copy_to_phys(b + n, zeros.as_slice(), MIN_ETH_FRAME - n);
            assert(zeros@.take((MIN_ETH_FRAME - n) as int) =~= Seq::new((MIN_ETH_FRAME - n) as nat, |i: int| 0u8));
            len = MIN_ETH_FRAME;
        }
        let ghost t2 = mmio.trace();
        mmio.dcache_clean(b, len);
        let tdes1 = TDES1_IC | TDES1_FS | TDES1_LS | ((len as u32) & TDES1_TBS1_MASK) | (if idx == TX_RING_SIZE - 1 {
            TDES1_TER
        } else {
            0
        });
        mmio.write32(d, 8, b as u32);
        mmio.write32(d, 4, tdes1);
        mmio.memory_fence();
        mmio.write32(d, 0, TDES0_OWN);
        mmio.dcache_clean(d, DESC_STRIDE);
        mmio.dcache_clean(b, len);
        mmio.write32(self.base, DMA_TX_POLL, 1);
        proof {
            let pad = if n < MIN_ETH_FRAME {
                seq![
                    BusOp::CopyToPhys {
                        addr: (b + n) as usize,
                        len: (MIN_ETH_FRAME - n) as usize,
                        data: Seq::new((MIN_ETH_FRAME - n) as nat, |i: int| 0u8),
                    },
                ]
            } else {
                Seq::<BusOp>::empty()
            };
            assert(packet@.take(n as int) =~= packet@);
            assert(t2 =~= t0 + seq![BusOp::CopyToPhys { addr: b, len: n, data: packet@ }] + pad);
            assert(mmio.trace() =~= old(mmio).trace() + tx_fill_ops(self.base(), self.region(), idx as int, packet@));
        }
    }

    /// Queues `packet` for transmission: copied into the head descriptor's
    /// buffer, padded with zeros to the minimum frame, the descriptor handed
    /// to the DMA and transmit polled.  A packet longer than a buffer is
    /// refused; a head descriptor still owned by the DMA (after reclaiming)
    /// gives `Again`.
    pub fn transmit<B: RegisterBus>(&mut self, mmio: &mut Mmio<B>, packet: &[u8]) -> (r: EthResult<()>)
        requires
            old(self).wf(),
        ensures
            final(self).wf(),
            final(self).base() == old(self).base(),
            final(self).mac() == old(self).mac(),
            final(self).region() == old(self).region(),
            final(self).cur() == old(self).cur(),
            final(self).rx_frames() == old(self).rx_frames(),
            packet@.len() > BUF_SIZE ==> r == Err::<(), EthError>(EthError::BadParam) && final(mmio).trace() == old(mmio).trace()
                && final(self).head() == old(self).head() && final(self).tail() == old(self).tail()
                && final(self).tx_frames() == old(self).tx_frames(),
            packet@.len() <= BUF_SIZE ==> final(mmio).trace().take(old(mmio).trace().len() as int) == old(mmio).trace()
                && (r is Ok ==> final(self).head() == next_index(old(self).head()) && final(self).tx_frames() == bump(old(self).tx_frames()))
                && (r is Err ==> final(self).head() == old(self).head() && final(self).tx_frames() == old(self).tx_frames())
                && exists|k: int, c: int| #[trigger] tx_split(
                    final(mmio).trace().skip(old(mmio).trace().len() as int),
                    old(self).base(),
                    old(self).region(),
                    old(self).tail(),
                    old(self).head(),
                    final(self).tail(),
                    packet@,
                    r,
                    k,
                    c,
                ),
    {
        if packet.len() > BUF_SIZE {
            return Err(EthError::BadParam);
        }
        let ghost t0 = mmio.trace();
        self.reclaim_tx(mmio);
        let ghost t1 = mmio.trace();
        let ghost k = choose|k: int| #[trigger] reclaim_ops(t1.skip(t0.len() as int), old(self).region(), old(self).tail(), old(self).head(), k, self.tail());
        let idx = self.tx_head;
        let d = self.tx_desc(idx);
        mmio.dcache_invalidate(d, DESC_STRIDE);
        let des0 = mmio.read32(d, 0);
        let ghost t2 = mmio.trace();
        let ghost c = t1.len() - t0.len();
        proof {
            assert(t2.take(t1.len() as int) =~= t1);
            crate::mmio::lemma_extend(t0, t1, t2);
            let seg = t2.skip(t0.len() as int);
            assert(seg.take(c) =~= t1.skip(t0.len() as int));
            assert(seg.subrange(c, c + 2) =~= seq![
                BusOp::CacheInvalidate { addr: d, len: DESC_STRIDE },
                BusOp::Read32 { base: d, offset: 0, value: des0 },
            ]);
            assert(read_at(seg, c + 1) == des0);
        }
        if des0 & TDES0_OWN != 0 {
            proof {
                let seg = t2.skip(t0.len() as int);
                assert(tx_split(seg, self.base, self.mem, old(self).tail(), old(self).head(), self.tail(), packet@, Err(EthError::Again), k, c));
            }
            return Err(EthError::Again);
        }
        self.fill_tx(mmio, idx, packet);
        self.tx_count = if self.tx_count == u32::MAX { 0 } else { self.tx_count + 1 };
        self.tx_head = (self.tx_head + 1) % TX_RING_SIZE;
        proof {
            let t = mmio.trace();
            assert(t.take(t2.len() as int) =~= t2);
            crate::mmio::lemma_extend(t0, t2, t);
            let seg = t.skip(t0.len() as int);
            assert(seg.take(c) =~= t1.skip(t0.len() as int));
            assert(seg.subrange(c, c + 2) =~= t2.skip(t1.len() as int));
            assert(read_at(seg, c + 1) == des0);
            assert(seg.skip(c + 2) =~= tx_fill_ops(self.base, self.mem, idx as int, packet@));
            assert(tx_split(seg, self.base, self.mem, old(self).tail(), old(self).head(), self.tail(), packet@, Ok(()), k, c));
        }
        Ok(())
    }

    /// Takes the current receive frame.  With the receive interrupt set, it
    /// is acknowledged first.  A descriptor still owned by the DMA gives
    /// `Again`; one with the error summary set is handed back and skipped
    /// (`Again`); otherwise the frame's buffer lines are discarded from the
    /// cache and the frame (FCS removed) is returned, to be handed back with
    /// [`Self::release_rx`].
    pub fn receive<B: RegisterBus>(&mut self, mmio: &mut Mmio<B>) -> (r: EthResult<RxToken>)
        requires
            old(self).wf(),
        ensures
            final(self).wf(),
            final(self).base() == old(self).base(),
            final(self).mac() == old(self).mac(),
            final(self).region() == old(self).region(),
            final(self).head() == old(self).head(),
            final(self).tail() == old(self).tail(),
            final(self).tx_frames() == old(self).tx_frames(),
            final(mmio).trace().take(old(mmio).trace().len() as int) == old(mmio).trace(),
            ({
                let seg = final(mmio).trace().skip(old(mmio).trace().len() as int);
                let base = old(self).base();
                let m = old(self).region();
                let i = old(self).cur();
                let status = read_at(seg, 0);
                let ack = status & DMA_STATUS_RI != 0;
                let c: int = if ack { 2 } else { 1 };
                let des0 = read_at(seg, c + 1);
                &&& is_read32_of(seg[0], base, DMA_STATUS)
                &&& ack ==> seg[1] == BusOp::Write32 { base, offset: DMA_STATUS, value: DMA_STATUS_RI | DMA_STATUS_NIS }
                &&& c + 2 <= seg.len()
                &&& rx_peek(seg.subrange(c, c + 2), m, i)
                &&& if des0 & RDES0_OWN != 0 {
                    &&& r == Err::<RxToken, EthError>(EthError::Again)
                    &&& seg.len() == c + 2
                    &&& final(self).cur() == i
                    &&& final(self).rx_frames() == old(self).rx_frames()
                } else if des0 & RDES0_ES != 0 {
                    &&& r == Err::<RxToken, EthError>(EthError::Again)
                    &&& seg.skip(c + 2) == requeue_ops(base, m, i)
                    &&& final(self).cur() == next_index(i)
                    &&& final(self).rx_frames() == old(self).rx_frames()
                } else {
                    &&& r == Ok::<RxToken, EthError>(RxToken { slot: i as usize, addr: rx_buf_at(m, i), len: rx_frame_len(des0) })
                    &&& seg.skip(c + 2) == seq![BusOp::CacheInvalidate { addr: rx_buf_at(m, i), len: rx_frame_len(des0) }]
                    &&& final(self).cur() == next_index(i)
                    &&& final(self).rx_frames() == bump(old(self).rx_frames())
                }
            }),
    {
        let idx = self.rx_cur;
        let status = mmio.read32(self.base, DMA_STATUS);
        if status & DMA_STATUS_RI != 0 {
            mmio.write32(self.base, DMA_STATUS, DMA_STATUS_RI | DMA_STATUS_NIS);
        }
        let ghost t1 = mmio.trace();
        let d = self.rx_desc(idx);
        mmio.dcache_invalidate(d, DESC_STRIDE);
        let des0 = mmio.read32(d, 0);
        let ghost t2 = mmio.trace();
        proof {
            let seg = t2.skip(old(mmio).trace().len() as int);
            assert(t2.take(old(mmio).trace().len() as int) =~= old(mmio).trace());
            assert(seg[0] == BusOp::Read32 { base: self.base, offset: DMA_STATUS, value: status });
            let c: int = if status & DMA_STATUS_RI != 0 { 2 } else { 1 };
            assert(seg.subrange(c, c + 2) =~= seq![
                BusOp::CacheInvalidate { addr: d, len: DESC_STRIDE },
                BusOp::Read32 { base: d, offset: 0, value: des0 },
            ]);
            assert(read_at(seg, c + 1) == des0);
        }
        if des0 & RDES0_OWN != 0 {
            return Err(EthError::Again);
        }
        if des0 & RDES0_ES != 0 {
            self.requeue_rx(mmio, idx);
            self.rx_cur = (self.rx_cur + 1) % RX_RING_SIZE;
            proof {
                let t = mmio.trace();
                let seg = t.skip(old(mmio).trace().len() as int);
                let c: int = if status & DMA_STATUS_RI != 0 { 2 } else { 1 };
                assert(t.take(old(mmio).trace().len() as int) =~= old(mmio).trace());
                assert(seg.subrange(c, c + 2) =~= t2.skip(t1.len() as int));
                assert(seg[0] == t2.skip(old(mmio).trace().len() as int)[0]);
                assert(seg.skip(c + 2) =~= requeue_ops(self.base, self.mem, idx as int));
                assert(read_at(seg, c + 1) == des0);
                assert(read_at(seg, 0) == status);
            }
            return Err(EthError::Again);
        }
        let fl = ((des0 & RDES0_FL_MASK) >> RDES0_FL_SHIFT) as usize;
        let n = if fl >= 4 { fl - 4 } else { fl };
        let frame_len = if n < BUF_SIZE { n } else { BUF_SIZE };
        let b = self.rx_buf(idx);
        mmio.dcache_invalidate(b, frame_len);
        self.rx_cur = (self.rx_cur + 1) % RX_RING_SIZE;
        self.rx_count = if self.rx_count == u32::MAX { 0 } else { self.rx_count + 1 };
        proof {
            let t = mmio.trace();
            let seg = t.skip(old(mmio).trace().len() as int);
            let c: int = if status & DMA_STATUS_RI != 0 { 2 } else { 1 };
            assert(t.take(old(mmio).trace().len() as int) =~= old(mmio).trace());
            assert(seg.subrange(c, c + 2) =~= t2.skip(t1.len() as int));
            assert(seg[0] == t2.skip(old(mmio).trace().len() as int)[0]);
            assert(seg.skip(c + 2) =~= seq![BusOp::CacheInvalidate { addr: b, len: frame_len }]);
            assert(read_at(seg, c + 1) == des0);
            assert(read_at(seg, 0) == status);
        }
        Ok(RxToken { slot: idx, addr: b, len: frame_len })
    }

    /// Gives receive descriptor `slot` back to the DMA.
    fn requeue_rx<B: RegisterBus>(&self, mmio: &mut Mmio<B>, slot: usize)
        requires
            self.wf(),
            slot < RX_RING_SIZE,
        ensures
            final(mmio).trace() == old(mmio).trace() + requeue_ops(self.base(), self.region(), slot as int),
    {
        self.give_rx_desc(mmio, slot);
        mmio.write32(self.base, DMA_STATUS, DMA_STATUS_RI | DMA_STATUS_NIS);
        mmio.write32(self.base, DMA_RX_POLL, 1);
        assert(mmio.trace() =~= old(mmio).trace() + requeue_ops(self.base(), self.region(), slot as int));
    }

    /// Hands a received frame's descriptor back to the DMA.
    pub fn release_rx<B: RegisterBus>(&mut self, mmio: &mut Mmio<B>, token: RxToken)
        requires
            old(self).wf(),
            token.slot < RX_RING_SIZE,
        ensures
            *final(self) == *old(self),
            final(mmio).trace() == old(mmio).trace() + requeue_ops(old(self).base(), old(self).region(), token.slot as int),
    {
        self.requeue_rx(mmio, token.slot);
    }

    /// The DMA soft reset, polled for completion.
    fn dma_reset<B: RegisterBus>(&self, mmio: &mut Mmio<B>)
        ensures
            old(mmio).trace().len() <= final(mmio).trace().len(),
            final(mmio).trace().take(old(mmio).trace().len() as int) == old(mmio).trace(),
            dma_reset_ops(final(mmio).trace().skip(old(mmio).trace().len() as int), self.base()),
    {
        proof {
            reveal(dma_reset_ops);
            reveal(any_poll);
        }
        let ghost t0 = mmio.trace();
        mmio.update_bits32(self.base, DMA_BUS_MODE, BUS_MODE_SWR, true);
        let ghost t1 = mmio.trace();
        let _ = mmio.poll32_until_clear(self.base, DMA_BUS_MODE, BUS_MODE_SWR, DMA_POLL_LIMIT);
        proof {
            let t = mmio.trace();
            assert(t1.take(t0.len() as int) =~= t0);
            crate::mmio::lemma_extend(t0, t1, t);
            let seg = t.skip(t0.len() as int);
            let raw = crate::mmio::read_at(t1, t0.len() as int);
            assert(seg.take(2) =~= t1.skip(t0.len() as int));
            assert(seg.skip(2) =~= t.skip(t1.len() as int));
            assert(seg.take(2) =~= Seq::<BusOp>::empty() + seq![
                BusOp::Read32 { base: self.base, offset: DMA_BUS_MODE, value: raw },
                BusOp::Write32 { base: self.base, offset: DMA_BUS_MODE, value: raw | BUS_MODE_SWR },
            ]);
            assert(crate::mmio::read_at(seg.take(2), 0) == raw);
        }
    }

    /// The MAC address in ADDR0 high and low.
    fn read_mac_from_hw<B: RegisterBus>(&self, mmio: &mut Mmio<B>) -> (mac: [u8; 6])
        ensures
            ({
                let seg = final(mmio).trace().skip(old(mmio).trace().len() as int);
                &&& final(mmio).trace().len() == old(mmio).trace().len() + 2
                &&& final(mmio).trace().take(old(mmio).trace().len() as int) == old(mmio).trace()
                &&& is_read32_of(seg[0], self.base(), GMAC_ADDR0_HIGH)
                &&& is_read32_of(seg[1], self.base(), GMAC_ADDR0_LOW)
                &&& mac@ == hw_mac(read_at(seg, 0), read_at(seg, 1))
            }),
    {
        let hi = mmio.read32(self.base, GMAC_ADDR0_HIGH);
        let lo = mmio.read32(self.base, GMAC_ADDR0_LOW);
        let mac: [u8; 6] = [
            (lo & 0xFF) as u8,
            ((lo >> 8) & 0xFF) as u8,
            ((lo >> 16) & 0xFF) as u8,
            ((lo >> 24) & 0xFF) as u8,
            (hi & 0xFF) as u8,
            ((hi >> 8) & 0xFF) as u8,
        ];
        proof {
            let seg = mmio.trace().skip(old(mmio).trace().len() as int);
            assert(mmio.trace().take(old(mmio).trace().len() as int) =~= old(mmio).trace());
            assert(seg[0] == BusOp::Read32 { base: self.base, offset: GMAC_ADDR0_HIGH, value: hi });
            assert(seg[1] == BusOp::Read32 { base: self.base, offset: GMAC_ADDR0_LOW, value: lo });
            assert(mac@ =~= hw_mac(hi, lo));
        }
        mac
    }

    /// Writes `m` to ADDR0 low and high (address enabled).
    fn set_mac_hw<B: RegisterBus>(&self, mmio: &mut Mmio<B>, m: &[u8; 6])
        ensures
            final(mmio).trace() == old(mmio).trace() + seq![
                BusOp::Write32 { base: self.base(), offset: GMAC_ADDR0_LOW, value: mac_lo(m@) },
                BusOp::Write32 { base: self.base(), offset: GMAC_ADDR0_HIGH, value: mac_hi(m@) },
            ],
    {
        let lo = (m[0] as u32) | ((m[1] as u32) << 8) | ((m[2] as u32) << 16) | ((m[3] as u32) << 24);
        let hi_field = (m[4] as u32) | ((m[5] as u32) << 8);
        mmio.write32(self.base, GMAC_ADDR0_LOW, lo);
        mmio.write32(self.base, GMAC_ADDR0_HIGH, hi_field | ADDR0_ENABLE);
        assert(mmio.trace() =~= old(mmio).trace() + seq![
            BusOp::Write32 { base: self.base(), offset: GMAC_ADDR0_LOW, value: mac_lo(m@) },
            BusOp::Write32 { base: self.base(), offset: GMAC_ADDR0_HIGH, value: mac_hi(m@) },
        ]);
    }

    fn setup_tx_ring<B: RegisterBus>(&self, mmio: &mut Mmio<B>)
        requires
            self.wf(),
        ensures
            old(mmio).trace().len() <= final(mmio).trace().len(),
            final(mmio).trace().take(old(mmio).trace().len() as int) == old(mmio).trace(),
            tx_ring_ops(final(mmio).trace().skip(old(mmio).trace().len() as int), self.region()),
    {
        proof {
            reveal(tx_ring_ops);
        }
        let ghost t0 = mmio.trace();
        let mut i: usize = 0;
        while i < TX_RING_SIZE
            invariant
                self.wf(),
                t0 == old(mmio).trace(),
                i <= TX_RING_SIZE,
                mmio.trace().len() == t0.len() + 5 * i,
                mmio.trace().take(t0.len() as int) == t0,
                forall|j: int| 0 <= j < i ==> #[trigger] mmio.trace().skip(t0.len() as int).subrange(5 * j, 5 * j + 5) == tx_desc_setup(self.region(), j),
            decreases TX_RING_SIZE - i,
        {
            let ghost tp = mmio.trace();
            let d = self.tx_desc(i);
            let b = self.tx_buf(i);
            mmio.write32(d, 0, 0);
            mmio.write32(d, 4, if i == TX_RING_SIZE - 1 { TDES1_TER } else { 0 });
            mmio.write32(d, 8, b as u32);
            mmio.write32(d, 12, 0);
            mmio.dcache_clean(d, DESC_STRIDE);
            proof {
                let t = mmio.trace();
                assert(t.take(t0.len() as int) =~= t0);
                assert(t.skip(t0.len() as int).subrange(5 * i, 5 * i + 5) =~= tx_desc_setup(self.region(), i as int));
                assert forall|j: int| 0 <= j < i + 1 implies #[trigger] t.skip(t0.len() as int).subrange(5 * j, 5 * j + 5) == tx_desc_setup(self.region(), j) by {
                    if j < i {
                        assert(t.skip(t0.len() as int).subrange(5 * j, 5 * j + 5) =~= tp.skip(t0.len() as int).subrange(5 * j, 5 * j + 5));
                    }
                }
            }
            i = i + 1;
        }
    }

    /// Hands receive descriptor `slot` to the DMA.
    fn give_rx_desc<B: RegisterBus>(&self, mmio: &mut Mmio<B>, slot: usize)
        requires
            self.wf(),
            slot < RX_RING_SIZE,
        ensures
            final(mmio).trace() == old(mmio).trace() + rx_desc_give(self.region(), slot as int),
    {
        let d = self.rx_desc(slot);
        let b = self.rx_buf(slot);
        mmio.write32(d, 8, b as u32);
        let rdes1 = RDES1_RBS1_MASK | (if slot == RX_RING_SIZE - 1 { RDES1_RER } else { 0 });
        mmio.write32(d, 4, rdes1);
        mmio.write32(d, 12, 0);
        mmio.memory_fence();
        mmio.write32(d, 0, RDES0_OWN);
        mmio.dcache_clean(d, DESC_STRIDE);
        assert(mmio.trace() =~= old(mmio).trace() + rx_desc_give(self.region(), slot as int));
    }

    fn setup_rx_ring<B: RegisterBus>(&self, mmio: &mut Mmio<B>)
        requires
            self.wf(),
        ensures
            old(mmio).trace().len() <= final(mmio).trace().len(),
            final(mmio).trace().take(old(mmio).trace().len() as int) == old(mmio).trace(),
            rx_ring_ops(final(mmio).trace().skip(old(mmio).trace().len() as int), self.region()),
    {
        proof {
            reveal(rx_ring_ops);
        }
        let ghost t0 = mmio.trace();
        let mut i: usize = 0;
        while i < RX_RING_SIZE
            invariant
                self.wf(),
                t0 == old(mmio).trace(),
                i <= RX_RING_SIZE,
                mmio.trace().len() == t0.len() + 6 * i,
                mmio.trace().take(t0.len() as int) == t0,
                forall|j: int| 0 <= j < i ==> #[trigger] mmio.trace().skip(t0.len() as int).subrange(6 * j, 6 * j + 6) == rx_desc_give(self.region(), j),
            decreases RX_RING_SIZE - i,
        {
            let ghost tp = mmio.trace();
            self.give_rx_desc(mmio, i);
            proof {
                let t = mmio.trace();
                assert(t.take(t0.len() as int) =~= t0);
                assert(t.skip(t0.len() as int).subrange(6 * i, 6 * i + 6) =~= rx_desc_give(self.region(), i as int));
                assert forall|j: int| 0 <= j < i + 1 implies #[trigger] t.skip(t0.len() as int).subrange(6 * j, 6 * j + 6) == rx_desc_give(self.region(), j) by {
                    if j < i {
                        assert(t.skip(t0.len() as int).subrange(6 * j, 6 * j + 6) =~= tp.skip(t0.len() as int).subrange(6 * j, 6 * j + 6));
                    }
                }
            }
            i = i + 1;
        }
    }
}

} // verus!
