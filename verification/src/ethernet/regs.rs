//! DWMAC 3.70a register map, as byte offsets from the controller's base:
//! the GMAC block at `0x0000`, the DMA block at `0x1000`.
use vstd::prelude::*;

verus! {

pub const GMAC_MAC_CONTROL: usize = 0x0000;

pub const GMAC_FRAME_FILTER: usize = 0x0004;

pub const GMAC_HASH_HIGH: usize = 0x0008;

pub const GMAC_HASH_LOW: usize = 0x000C;

pub const GMAC_MII_ADDR: usize = 0x0010;

pub const GMAC_MII_DATA: usize = 0x0014;

pub const GMAC_VERSION: usize = 0x0020;

pub const GMAC_INT_MASK: usize = 0x003C;

pub const GMAC_ADDR0_HIGH: usize = 0x0040;

pub const GMAC_ADDR0_LOW: usize = 0x0044;

pub const GMAC_MMC_CNTRL: usize = 0x0100;

/// Offset of the DMA block.
pub const DMA_BLOCK: usize = 0x1000;

pub const DMA_BUS_MODE: usize = 0x1000;

pub const DMA_TX_POLL: usize = 0x1004;

pub const DMA_RX_POLL: usize = 0x1008;

pub const DMA_RX_BASE: usize = 0x100C;

pub const DMA_TX_BASE: usize = 0x1010;

pub const DMA_STATUS: usize = 0x1014;

pub const DMA_OPERATION: usize = 0x1018;

pub const DMA_INTR_ENA: usize = 0x101C;

/// MAC control: receiver enable.
pub const MAC_CONTROL_RE: u32 = 1 << 2;

/// MAC control: transmitter enable.
pub const MAC_CONTROL_TE: u32 = 1 << 3;

/// MAC control: duplex mode (full).
pub const MAC_CONTROL_DM: u32 = 1 << 11;

/// MAC control: speed (100 Mbit/s).
pub const MAC_CONTROL_FES: u32 = 1 << 14;

/// MAC control: port select (MII).
pub const MAC_CONTROL_PS: u32 = 1 << 15;

/// Frame filter: promiscuous.
pub const FRAME_FILTER_PR: u32 = 1 << 0;

/// Frame filter: receive all.
pub const FRAME_FILTER_RA: u32 = 1 << 31;

/// MII address: busy.
pub const MII_BUSY: u32 = 1 << 0;

/// MII address: write.
pub const MII_WRITE: u32 = 1 << 1;

/// MII address: MDC clock range field shift.
pub const MII_CLK_CSR_SHIFT: u32 = 2;

/// MII address: register field shift.
pub const MII_REG_SHIFT: u32 = 6;

/// MII address: PHY field shift.
pub const MII_PHY_SHIFT: u32 = 11;

/// MDC clock range for a 60-100 MHz CSR clock (divide by 42).
pub const MII_CLK_CSR_60_100M_DIV42: u32 = 0x4;

/// Address 0 high: address enable.
pub const ADDR0_ENABLE: u32 = 1 << 31;

/// DMA bus mode: software reset.
pub const BUS_MODE_SWR: u32 = 1 << 0;

/// DMA bus mode as the driver sets it: 8-beat bursts (PBL), 12 words
/// skipped between descriptors (DSL), fixed bursts (FB), address-aligned
/// beats (AAL).
pub const BUS_MODE_VALUE: u32 = (8 << 8) | (12 << 2) | (1 << 16) | (1 << 25);

/// DMA status: transmit interrupt.
pub const DMA_STATUS_TI: u32 = 1 << 0;

/// DMA status: receive interrupt.
pub const DMA_STATUS_RI: u32 = 1 << 6;

/// DMA status: normal interrupt summary.
pub const DMA_STATUS_NIS: u32 = 1 << 16;

/// DMA operation: start/stop receive.
pub const OP_SR: u32 = 1 << 1;

/// DMA operation: operate on second frame.
pub const OP_OSF: u32 = 1 << 2;

/// DMA operation: start/stop transmission.
pub const OP_ST: u32 = 1 << 13;

/// DMA operation: flush transmit FIFO.
pub const OP_FTF: u32 = 1 << 20;

/// DMA operation: transmit store and forward.
pub const OP_TSF: u32 = 1 << 21;

/// DMA operation: receive store and forward.
pub const OP_RSF: u32 = 1 << 25;

/// The GMAC register block of the controller at `base`.
pub fn gmac_regs(base: usize) -> (b: usize)
    ensures
        b == base,
{
    base
}

/// The DMA register block of the controller at `base`.
pub fn dma_regs(base: usize) -> (b: usize)
    requires
        base + DMA_BLOCK <= usize::MAX,
    ensures
        b == base + DMA_BLOCK,
{
    base + DMA_BLOCK
}

} // verus!
