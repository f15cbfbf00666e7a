//! DWMAC normal-mode transmit and receive descriptors (16 bytes each, one
//! per 64-byte cache line: the DMA skips 12 words between descriptors).
use vstd::prelude::*;

verus! {

/// A descriptor as four 32-bit words.
#[derive(Debug, Clone, Copy, PartialEq, Eq, Structural)]
pub struct DmaDesc {
    pub des0: u32,
    pub des1: u32,
    pub des2: u32,
    pub des3: u32,
}

impl DmaDesc {
    pub fn zero() -> (d: Self)
        ensures
            d == (DmaDesc { des0: 0, des1: 0, des2: 0, des3: 0 }),
    {
        DmaDesc { des0: 0, des1: 0, des2: 0, des3: 0 }
    }
}

/// Bytes from one descriptor to the next in a ring.
pub const DESC_STRIDE: usize = 64;

/// TDES0: owned by the DMA.
pub const TDES0_OWN: u32 = 1 << 31;

/// TDES1: interrupt on completion.
pub const TDES1_IC: u32 = 1 << 31;

/// TDES1: last segment.
pub const TDES1_LS: u32 = 1 << 30;

/// TDES1: first segment.
pub const TDES1_FS: u32 = 1 << 29;

/// TDES1: transmit end of ring.
pub const TDES1_TER: u32 = 1 << 25;

/// TDES1: buffer 1 size.
pub const TDES1_TBS1_MASK: u32 = 0x7FF;

/// RDES0: owned by the DMA.
pub const RDES0_OWN: u32 = 1 << 31;

/// RDES0: frame length, FCS included.
pub const RDES0_FL_MASK: u32 = 0x3FFF << 16;

pub const RDES0_FL_SHIFT: u32 = 16;

/// RDES0: error summary.
pub const RDES0_ES: u32 = 1 << 15;

/// RDES1: receive buffer 1 size.
pub const RDES1_RBS1_MASK: u32 = 0x7FF;

/// RDES1: receive end of ring.
pub const RDES1_RER: u32 = 1 << 25;

pub const TX_RING_SIZE: usize = 32;

pub const RX_RING_SIZE: usize = 32;

/// Bytes of each packet buffer.
pub const BUF_SIZE: usize = 2048;

} // verus!
