//! Register map, bit fields and driver constants of the I2C controller.
use vstd::prelude::*;

verus! {

pub const IC_CON: usize = 0x000;

pub const IC_TAR: usize = 0x004;

pub const IC_SAR: usize = 0x008;

pub const IC_DATA_CMD: usize = 0x010;

pub const IC_SS_SCL_HCNT: usize = 0x014;

pub const IC_SS_SCL_LCNT: usize = 0x018;

pub const IC_FS_SCL_HCNT: usize = 0x01c;

pub const IC_FS_SCL_LCNT: usize = 0x020;

pub const IC_INTR_STAT: usize = 0x02c;

pub const IC_INTR_MASK: usize = 0x030;

pub const IC_RAW_INTR_STAT: usize = 0x034;

pub const IC_RX_TL: usize = 0x038;

pub const IC_TX_TL: usize = 0x03c;

/// Reading clears every interrupt.
pub const IC_CLR_INTR: usize = 0x040;

pub const IC_CLR_RX_UNDER: usize = 0x044;

pub const IC_CLR_RX_OVER: usize = 0x048;

pub const IC_CLR_TX_OVER: usize = 0x04c;

pub const IC_CLR_RD_REQ: usize = 0x050;

pub const IC_CLR_TX_ABRT: usize = 0x054;

pub const IC_CLR_RX_DONE: usize = 0x058;

pub const IC_CLR_ACTIVITY: usize = 0x05c;

pub const IC_CLR_STOP_DET: usize = 0x060;

pub const IC_CLR_START_DET: usize = 0x064;

pub const IC_CLR_GEN_CALL: usize = 0x068;

pub const IC_ENABLE: usize = 0x06c;

pub const IC_STATUS: usize = 0x070;

pub const IC_TXFLR: usize = 0x074;

pub const IC_RXFLR: usize = 0x078;

pub const IC_SDA_HOLD: usize = 0x07c;

pub const IC_TX_ABRT_SOURCE: usize = 0x080;

pub const IC_SLV_DATA_NACK_ONLY: usize = 0x084;

pub const IC_DMA_CR: usize = 0x088;

pub const IC_DMA_TDLR: usize = 0x08c;

pub const IC_DMA_RDLR: usize = 0x090;

pub const IC_SDA_SETUP: usize = 0x094;

pub const IC_ACK_GENERAL_CALL: usize = 0x098;

pub const IC_ENABLE_STATUS: usize = 0x09c;

pub const IC_FS_SPKLEN: usize = 0x0a0;

pub const IC_HS_SPKLEN: usize = 0x0a4;

/// IC_CON: master mode.
pub const CON_MASTER_MODE: u32 = 1 << 0;

/// IC_CON: speed field shift (1 standard, 2 fast).
pub const CON_SPEED_SHIFT: u32 = 1;

/// IC_CON: 10-bit slave addressing.
pub const CON_10BITADDR_SLAVE: u32 = 1 << 3;

/// IC_CON: 10-bit master addressing.
pub const CON_10BITADDR_MASTER: u32 = 1 << 4;

/// IC_CON: RESTART conditions allowed.
pub const CON_RESTART_EN: u32 = 1 << 5;

/// IC_CON: slave disabled.
pub const CON_SLAVE_DISABLE: u32 = 1 << 6;

/// IC_TAR: target address field.
pub const TAR_ADDR_MASK: u32 = 0x3ff;

/// IC_DATA_CMD: data byte.
pub const DATA_CMD_DAT_MASK: u32 = 0xff;

/// IC_DATA_CMD: read command (write when clear).
pub const DATA_CMD_READ: u32 = 1 << 8;

/// IC_DATA_CMD: STOP after this byte.
pub const DATA_CMD_STOP: u32 = 1 << 9;

/// IC_DATA_CMD: RESTART before this byte.
pub const DATA_CMD_RESTART: u32 = 1 << 10;

/// IC_STATUS: activity.
pub const STATUS_ACTIVITY: u32 = 1 << 0;

/// IC_STATUS: transmit FIFO not full.
pub const STATUS_TFNF: u32 = 1 << 1;

/// IC_STATUS: transmit FIFO empty.
pub const STATUS_TFE: u32 = 1 << 2;

/// IC_STATUS: receive FIFO not empty.
pub const STATUS_RFNE: u32 = 1 << 3;

/// IC_RAW_INTR_STAT: receive FIFO overflow.
pub const RAW_RX_OVER: u32 = 1 << 1;

/// IC_RAW_INTR_STAT: transmit FIFO overflow.
pub const RAW_TX_OVER: u32 = 1 << 3;

/// IC_RAW_INTR_STAT: transmit abort.
pub const RAW_TX_ABRT: u32 = 1 << 6;

/// IC_ENABLE_STATUS: controller enabled.
pub const ENABLE_STATUS_IC_EN: u32 = 1 << 0;

/// IC_DMA_CR: receive DMA enable.
pub const DMA_CR_RDMAE: u32 = 1 << 0;

/// IC_DMA_CR: transmit DMA enable.
pub const DMA_CR_TDMAE: u32 = 1 << 1;

/// Failures of an I2C transfer.
#[derive(Debug, Clone, Copy, PartialEq, Eq, Structural)]
pub enum I2cError {
    TxAbort,
    RxOverflow,
    TxOverflow,
    Timeout,
    BusBusy,
    Nack,
    ArbitrationLost,
}

/// Bus speed mode.
#[derive(Debug, Clone, Copy, PartialEq, Eq, Structural)]
pub enum I2cSpeed {
    /// About 100 kbit/s.
    Standard,
    /// About 400 kbit/s.
    Fast,
}

/// The IC_CON speed field value of a mode.
pub open spec fn speed_code(s: I2cSpeed) -> u32 {
    match s {
        I2cSpeed::Standard => 1,
        I2cSpeed::Fast => 2,
    }
}

impl I2cSpeed {
    /// The mode whose IC_CON speed field value is `value`, if any.
    pub fn from_u32(value: u32) -> (r: Option<Self>)
        ensures
            r matches Some(s) ==> speed_code(s) == value,
            r is None <==> value != 1 && value != 2,
    {
        match value {
            1 => Some(I2cSpeed::Standard),
            2 => Some(I2cSpeed::Fast),
            _ => None,
        }
    }

    /// The IC_CON speed field value of this mode.
    pub fn code(&self) -> (c: u32)
        ensures
            c == speed_code(*self),
    {
        match self {
            I2cSpeed::Standard => 1,
            I2cSpeed::Fast => 2,
        }
    }
}

/// Target addressing mode.
#[derive(Debug, Clone, Copy, PartialEq, Eq, Structural)]
pub enum I2cAddressMode {
    SevenBit,
    TenBit,
}

pub const I2C_TX_FIFO_DEPTH: usize = 64;

pub const I2C_RX_FIFO_DEPTH: usize = 64;

/// Most status polls a wait makes before it gives up.
pub const I2C_DEFAULT_TIMEOUT: u32 = 100_000;

} // verus!
