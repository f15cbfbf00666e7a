//! AXI DMA controller (DesignWare AXI DMAC): channel bookkeeping, channel
//! configuration and start, interrupt handling and linked-list descriptors.
pub mod regs;

use regs::{
    BLOCK_TS_MASK, CFG_CH_PRIOR_SHIFT, CFG_DMA_EN, CFG_DST_MULTBLK_TYPE_SHIFT, CFG_DST_OSR_LMT_SHIFT,
    CFG_DST_PER_SHIFT, CFG_INT_EN, CFG_SRC_MULTBLK_TYPE_SHIFT, CFG_SRC_OSR_LMT_SHIFT,
    CFG_SRC_PER_SHIFT, CFG_TT_FC_SHIFT, CH_ABORT_OFFSET, CH_ABORT_WE_OFFSET, CH_BLOCK_TS_OFFSET,
    CH_CFG_OFFSET, CH_CTL_OFFSET, CH_DAR_OFFSET, CH_EN_WE_OFFSET, CH_INT_CLEAR_OFFSET,
    CH_INT_STATUS_EN_OFFSET, CH_INT_STATUS_OFFSET, CH_LLP_OFFSET, CH_PAUSE_EN_OFFSET,
    CH_PAUSE_OFFSET, CH_SAR_OFFSET, CTL_DST_INC, CTL_DST_FIX, CTL_DST_MSIZE_SHIFT, CTL_DST_STA_EN,
    CTL_DST_WIDTH_SHIFT, CTL_LLI_LAST, CTL_LLI_VALID, CTL_SRC_FIX, CTL_SRC_INC,
    CTL_SRC_MSIZE_SHIFT, CTL_SRC_STA_EN, CTL_SRC_WIDTH_SHIFT, DMA_CFG_OFFSET, DMA_CH_EN_OFFSET,
    DMA_COMM_INT_CLEAR_OFFSET, DMA_INT_STATUS_OFFSET, DMA_RESET_OFFSET, INT_BLOCK_TFR_DONE,
    INT_DMA_TFR_DONE,
};
use crate::mmio::{polled64_until_clear, read64_at, BusOp, Mmio, RegisterBus};
use vstd::prelude::*;

verus! {

pub const DMA_MAX_CHANNELS: usize = 8;

pub const DMA_MAX_MASTERS: usize = 4;

pub const DMA_MAX_REQUESTS: usize = 16;

pub const DMA_DEFAULT_BLOCK_SIZE: u32 = 1024;

/// Reads of a self-clearing bit before giving up on it.
pub const DMA_POLL_LIMIT: u32 = 1_000_000;

/// Reads of the channel enable bit before a start gives up.
pub const DMA_START_RETRIES: u32 = 3001;

#[derive(Debug, Clone, Copy, PartialEq, Eq, Structural)]
pub enum DmaDirection {
    MemToMem,
    MemToDev,
    DevToMem,
    NoDirection,
}

impl Default for DmaDirection {
    fn default() -> (d: Self)
        ensures
            d == DmaDirection::NoDirection,
    {
        DmaDirection::NoDirection
    }
}

/// Transfer width; its register code `c` stands for `1 << c` bytes.
#[derive(Debug, Clone, Copy, PartialEq, Eq, Structural)]
pub enum DmaWidth {
    Width8,
    Width16,
    Width32,
    Width64,
    Width128,
    Width256,
    Width512,
}

pub open spec fn width_code(w: DmaWidth) -> u8 {
    match w {
        DmaWidth::Width8 => 0,
        DmaWidth::Width16 => 1,
        DmaWidth::Width32 => 2,
        DmaWidth::Width64 => 3,
        DmaWidth::Width128 => 4,
        DmaWidth::Width256 => 5,
        DmaWidth::Width512 => 6,
    }
}

pub open spec fn width_from_bytes(bytes: usize) -> DmaWidth {
    if bytes == 1 {
        DmaWidth::Width8
    } else if bytes == 2 {
        DmaWidth::Width16
    } else if bytes == 4 {
        DmaWidth::Width32
    } else if bytes == 8 {
        DmaWidth::Width64
    } else if bytes == 16 {
        DmaWidth::Width128
    } else if bytes == 32 {
        DmaWidth::Width256
    } else if bytes == 64 {
        DmaWidth::Width512
    } else {
        DmaWidth::Width32
    }
}

impl Default for DmaWidth {
    fn default() -> (w: Self)
        ensures
            w == DmaWidth::Width32,
    {
        DmaWidth::Width32
    }
}

impl DmaWidth {
    /// The width of `bytes` bytes; an unsupported size gives 32 bits.
    pub fn from_bytes(bytes: usize) -> (w: Self)
        ensures
            w == width_from_bytes(bytes),
    {
        match bytes {
            1 => DmaWidth::Width8,
            2 => DmaWidth::Width16,
            4 => DmaWidth::Width32,
            8 => DmaWidth::Width64,
            16 => DmaWidth::Width128,
            32 => DmaWidth::Width256,
            64 => DmaWidth::Width512,
            _ => DmaWidth::Width32,
        }
    }

    /// The register code of the width.
    pub fn code(&self) -> (c: u8)
        ensures
            c == width_code(*self),
    {
        match self {
            DmaWidth::Width8 => 0,
            DmaWidth::Width16 => 1,
            DmaWidth::Width32 => 2,
            DmaWidth::Width64 => 3,
            DmaWidth::Width128 => 4,
            DmaWidth::Width256 => 5,
            DmaWidth::Width512 => 6,
        }
    }

    /// Bytes per beat: `1 << code`.
    pub fn bytes(&self) -> (b: usize)
        ensures
            b == 1usize << (width_code(*self) as usize),
    {
        1usize << (self.code() as usize)
    }
}

/// Burst transaction length; its register code `c` stands for 1, 4, 8, ... beats.
#[derive(Debug, Clone, Copy, PartialEq, Eq, Structural)]
pub enum DmaMsize {
    Msize1,
    Msize4,
    Msize8,
    Msize16,
    Msize32,
    Msize64,
    Msize128,
    Msize256,
}

pub open spec fn msize_code(m: DmaMsize) -> u8 {
    match m {
        DmaMsize::Msize1 => 0,
        DmaMsize::Msize4 => 1,
        DmaMsize::Msize8 => 2,
        DmaMsize::Msize16 => 3,
        DmaMsize::Msize32 => 4,
        DmaMsize::Msize64 => 5,
        DmaMsize::Msize128 => 6,
        DmaMsize::Msize256 => 7,
    }
}

impl DmaMsize {
    /// The register code of the burst length.
    pub fn code(&self) -> (c: u8)
        ensures
            c == msize_code(*self),
    {
        match self {
            DmaMsize::Msize1 => 0,
            DmaMsize::Msize4 => 1,
            DmaMsize::Msize8 => 2,
            DmaMsize::Msize16 => 3,
            DmaMsize::Msize32 => 4,
            DmaMsize::Msize64 => 5,
            DmaMsize::Msize128 => 6,
            DmaMsize::Msize256 => 7,
        }
    }
}

/// Transfer type and flow controller.
#[derive(Debug, Clone, Copy, PartialEq, Eq, Structural)]
pub enum DmaFlowControl {
    DmaM2M,
    DmaM2P,
    DmaP2M,
    DmaP2P,
    SrcP2M,
    SrcP2P,
    DstM2P,
    DstP2P,
}

pub open spec fn flow_code(f: DmaFlowControl) -> u64 {
    match f {
        DmaFlowControl::DmaM2M => 0,
        DmaFlowControl::DmaM2P => 1,
        DmaFlowControl::DmaP2M => 2,
        DmaFlowControl::DmaP2P => 3,
        DmaFlowControl::SrcP2M => 4,
        DmaFlowControl::SrcP2P => 5,
        DmaFlowControl::DstM2P => 6,
        DmaFlowControl::DstP2P => 7,
    }
}

#[derive(Debug, Clone, Copy, PartialEq, Eq, Structural)]
pub enum DmaMultiBlockType {
    Contiguous,
    Reload,
    ShadowReg,
    LinkList,
}

#[derive(Debug, Clone, Copy, PartialEq, Eq, Structural)]
pub enum ChannelStatus {
    Idle,
    Running,
    Paused,
    Completed,
    Error,
}

/// A linked-list item, as the controller reads it from memory.
#[derive(Debug, Clone, Copy, PartialEq, Eq, Structural)]
pub struct DmaLli {
    pub sar: u64,
    pub dar: u64,
    pub block_ts: u64,
    pub llp: u64,
    pub ctl: u64,
    pub sstat: u64,
    pub dstat: u64,
    pub llp_status: u64,
}

impl DmaLli {
    /// An item with every field zero.
    pub open spec fn new_spec() -> DmaLli {
        DmaLli { sar: 0, dar: 0, block_ts: 0, llp: 0, ctl: 0, sstat: 0, dstat: 0, llp_status: 0 }
    }

    /// An item with every field zero.
    pub fn new() -> (l: Self)
        ensures
            l == (DmaLli { sar: 0, dar: 0, block_ts: 0, llp: 0, ctl: 0, sstat: 0, dstat: 0, llp_status: 0 }),
    {
        DmaLli { sar: 0, dar: 0, block_ts: 0, llp: 0, ctl: 0, sstat: 0, dstat: 0, llp_status: 0 }
    }
}

/// Bytes of one linked-list item in memory.
pub const DMA_LLI_SIZE: u64 = 64;

/// Peripheral side of a slave transfer.
#[derive(Debug, Clone, Copy, PartialEq, Eq, Structural)]
pub struct DmaSlaveConfig {
    pub direction: DmaDirection,
    pub src_addr: u64,
    pub dst_addr: u64,
    pub src_addr_width: DmaWidth,
    pub dst_addr_width: DmaWidth,
    pub src_maxburst: u32,
    pub dst_maxburst: u32,
    pub device_fc: bool,
}

pub open spec fn default_slave_config() -> DmaSlaveConfig {
    DmaSlaveConfig {
        direction: DmaDirection::NoDirection,
        src_addr: 0,
        dst_addr: 0,
        src_addr_width: DmaWidth::Width32,
        dst_addr_width: DmaWidth::Width32,
        src_maxburst: 0,
        dst_maxburst: 0,
        device_fc: false,
    }
}

impl Default for DmaSlaveConfig {
    fn default() -> (c: Self)
        ensures
            c == default_slave_config(),
    {
        DmaSlaveConfig {
            direction: DmaDirection::NoDirection,
            src_addr: 0,
            dst_addr: 0,
            src_addr_width: DmaWidth::Width32,
            dst_addr_width: DmaWidth::Width32,
            src_maxburst: 0,
            dst_maxburst: 0,
            device_fc: false,
        }
    }
}

/// Register block address of channel `index` of the controller at `base`.
pub open spec fn channel_regs(base: usize, index: usize) -> int {
    base + 0x100 + index * 0x100
}

/// One channel of the controller.
pub struct DmaChannel {
    pub index: usize,
    pub mask: u64,
    pub regs: usize,
    pub direction: DmaDirection,
    pub config: DmaSlaveConfig,
    pub priority: u8,
    pub block_size: u32,
    pub src_id: u8,
    pub dst_id: u8,
    pub m_master: u8,
    pub p_master: u8,
    pub is_cyclic: bool,
    pub is_initialized: bool,
    pub is_paused: bool,
}

/// The 64-bit write of `value` to channel register `offset`.
pub open spec fn ch_write(ch: &DmaChannel, offset: usize, value: u64) -> BusOp {
    BusOp::Write64 { base: ch.regs, offset, value }
}

/// The 64-bit read, with result `value`, of channel register `offset`.
pub open spec fn ch_read(ch: &DmaChannel, offset: usize, value: u64) -> BusOp {
    BusOp::Read64 { base: ch.regs, offset, value }
}

impl DmaChannel {
    /// Channel `index` of the controller at `base`, idle and unconfigured.
    pub fn new(index: usize, base: usize) -> (c: Self)
        requires
            index < 64,
            channel_regs(base, index) <= usize::MAX,
        ensures
            c.index == index,
            c.mask == 1u64 << (index as u64),
            c.regs == channel_regs(base, index),
            c.direction == DmaDirection::NoDirection,
            c.config == default_slave_config(),
            c.priority == 0,
            c.block_size == DMA_DEFAULT_BLOCK_SIZE,
            c.src_id == 0 && c.dst_id == 0,
            c.m_master == 0 && c.p_master == 1,
            !c.is_cyclic && !c.is_initialized && !c.is_paused,
    {
        DmaChannel {
            index,
            mask: 1u64 << (index as u64),
            regs: base + 0x100 + index * 0x100,
            direction: DmaDirection::NoDirection,
            config: DmaSlaveConfig::default(),
            priority: 0,
            block_size: DMA_DEFAULT_BLOCK_SIZE,
            src_id: 0,
            dst_id: 0,
            m_master: 0,
            p_master: 1,
            is_cyclic: false,
            is_initialized: false,
            is_paused: false,
        }
    }

    /// Reads the channel register at `offset`.
    pub fn read_reg<B: RegisterBus>(&self, mmio: &mut Mmio<B>, offset: usize) -> (v: u64)
        ensures
            final(mmio).trace() == old(mmio).trace().push(ch_read(self, offset, v)),
    {
        mmio.read64(self.regs, offset)
    }

    /// Writes the channel register at `offset`.
    pub fn write_reg<B: RegisterBus>(&self, mmio: &mut Mmio<B>, offset: usize, value: u64)
        ensures
            final(mmio).trace() == old(mmio).trace().push(ch_write(self, offset, value)),
    {
        mmio.write64(self.regs, offset, value);
    }

    pub fn read_sar<B: RegisterBus>(&self, mmio: &mut Mmio<B>) -> (v: u64)
        ensures
            final(mmio).trace() == old(mmio).trace().push(ch_read(self, CH_SAR_OFFSET, v)),
    {
        mmio.read64(self.regs, CH_SAR_OFFSET)
    }

    pub fn write_sar<B: RegisterBus>(&self, mmio: &mut Mmio<B>, addr: u64)
        ensures
            final(mmio).trace() == old(mmio).trace().push(ch_write(self, CH_SAR_OFFSET, addr)),
    {
        mmio.write64(self.regs, CH_SAR_OFFSET, addr);
    }

    pub fn read_dar<B: RegisterBus>(&self, mmio: &mut Mmio<B>) -> (v: u64)
        ensures
            final(mmio).trace() == old(mmio).trace().push(ch_read(self, CH_DAR_OFFSET, v)),
    {
        mmio.read64(self.regs, CH_DAR_OFFSET)
    }

    pub fn write_dar<B: RegisterBus>(&self, mmio: &mut Mmio<B>, addr: u64)
        ensures
            final(mmio).trace() == old(mmio).trace().push(ch_write(self, CH_DAR_OFFSET, addr)),
    {
        mmio.write64(self.regs, CH_DAR_OFFSET, addr);
    }

    pub fn read_llp<B: RegisterBus>(&self, mmio: &mut Mmio<B>) -> (v: u64)
        ensures
            final(mmio).trace() == old(mmio).trace().push(ch_read(self, CH_LLP_OFFSET, v)),
    {
        mmio.read64(self.regs, CH_LLP_OFFSET)
    }

    pub fn write_llp<B: RegisterBus>(&self, mmio: &mut Mmio<B>, addr: u64)
        ensures
            final(mmio).trace() == old(mmio).trace().push(ch_write(self, CH_LLP_OFFSET, addr)),
    {
        mmio.write64(self.regs, CH_LLP_OFFSET, addr);
    }

    pub fn read_ctl<B: RegisterBus>(&self, mmio: &mut Mmio<B>) -> (v: u64)
        ensures
            final(mmio).trace() == old(mmio).trace().push(ch_read(self, CH_CTL_OFFSET, v)),
    {
        mmio.read64(self.regs, CH_CTL_OFFSET)
    }

    pub fn write_ctl<B: RegisterBus>(&self, mmio: &mut Mmio<B>, value: u64)
        ensures
            final(mmio).trace() == old(mmio).trace().push(ch_write(self, CH_CTL_OFFSET, value)),
    {
        mmio.write64(self.regs, CH_CTL_OFFSET, value);
    }

    pub fn read_cfg<B: RegisterBus>(&self, mmio: &mut Mmio<B>) -> (v: u64)
        ensures
            final(mmio).trace() == old(mmio).trace().push(ch_read(self, CH_CFG_OFFSET, v)),
    {
        mmio.read64(self.regs, CH_CFG_OFFSET)
    }

    pub fn write_cfg<B: RegisterBus>(&self, mmio: &mut Mmio<B>, value: u64)
        ensures
            final(mmio).trace() == old(mmio).trace().push(ch_write(self, CH_CFG_OFFSET, value)),
    {
        mmio.write64(self.regs, CH_CFG_OFFSET, value);
    }

    pub fn read_block_ts<B: RegisterBus>(&self, mmio: &mut Mmio<B>) -> (v: u64)
        ensures
            final(mmio).trace() == old(mmio).trace().push(ch_read(self, CH_BLOCK_TS_OFFSET, v)),
    {
        mmio.read64(self.regs, CH_BLOCK_TS_OFFSET)
    }

    pub fn write_block_ts<B: RegisterBus>(&self, mmio: &mut Mmio<B>, size: u64)
        ensures
            final(mmio).trace() == old(mmio).trace().push(ch_write(self, CH_BLOCK_TS_OFFSET, size)),
    {
        mmio.write64(self.regs, CH_BLOCK_TS_OFFSET, size);
    }

    pub fn read_int_status<B: RegisterBus>(&self, mmio: &mut Mmio<B>) -> (v: u64)
        ensures
            final(mmio).trace() == old(mmio).trace().push(ch_read(self, CH_INT_STATUS_OFFSET, v)),
    {
        mmio.read64(self.regs, CH_INT_STATUS_OFFSET)
    }

    /// Clears the channel interrupts of `mask`.
    pub fn clear_interrupt<B: RegisterBus>(&self, mmio: &mut Mmio<B>, mask: u64)
        ensures
            final(mmio).trace() == old(mmio).trace().push(ch_write(self, CH_INT_CLEAR_OFFSET, mask)),
    {
        mmio.write64(self.regs, CH_INT_CLEAR_OFFSET, mask);
    }

    /// Enables the status of exactly the channel interrupts of `mask`.
    pub fn enable_interrupt<B: RegisterBus>(&self, mmio: &mut Mmio<B>, mask: u64)
        ensures
            final(mmio).trace() == old(mmio).trace().push(ch_write(self, CH_INT_STATUS_EN_OFFSET, mask)),
    {
        mmio.write64(self.regs, CH_INT_STATUS_EN_OFFSET, mask);
    }

    /// Disables the status of every channel interrupt.
    pub fn disable_interrupt<B: RegisterBus>(&self, mmio: &mut Mmio<B>)
        ensures
            final(mmio).trace() == old(mmio).trace().push(ch_write(self, CH_INT_STATUS_EN_OFFSET, 0)),
    {
        mmio.write64(self.regs, CH_INT_STATUS_EN_OFFSET, 0);
    }
}

/// The value written to `CHx_CFG` when a channel is initialised.
pub open spec fn channel_cfg_value(ch: DmaChannel) -> u64 {
    let base_cfg = ((ch.dst_id as u64) << CFG_DST_PER_SHIFT) | ((ch.src_id as u64) << CFG_SRC_PER_SHIFT)
        | (15u64 << CFG_SRC_OSR_LMT_SHIFT) | (15u64 << CFG_DST_OSR_LMT_SHIFT) | ((ch.priority as u64)
        << CFG_CH_PRIOR_SHIFT) | (3u64 << CFG_DST_MULTBLK_TYPE_SHIFT) | (3u64
        << CFG_SRC_MULTBLK_TYPE_SHIFT);
    match ch.direction {
        DmaDirection::MemToMem => base_cfg | (flow_code(DmaFlowControl::DmaM2M) << CFG_TT_FC_SHIFT),
        DmaDirection::MemToDev => base_cfg | (flow_code(
            if ch.config.device_fc {
                DmaFlowControl::DstM2P
            } else {
                DmaFlowControl::DmaM2P
            },
        ) << CFG_TT_FC_SHIFT),
        DmaDirection::DevToMem => base_cfg | (flow_code(
            if ch.config.device_fc {
                DmaFlowControl::SrcP2M
            } else {
                DmaFlowControl::DmaP2M
            },
        ) << CFG_TT_FC_SHIFT),
        DmaDirection::NoDirection => base_cfg,
    }
}

/// The interrupts enabled when a channel is initialised.
pub open spec fn channel_int_value(ch: DmaChannel) -> u64 {
    if ch.is_cyclic {
        INT_BLOCK_TFR_DONE
    } else {
        INT_DMA_TFR_DONE
    }
}

/// `ops` is a bounded poll of the 64-bit register at `base + offset` for
/// the bits of `mask` to clear, whichever way it ended.
pub open spec fn poll_outcome64(ops: Seq<BusOp>, base: usize, offset: usize, mask: u64, max: int) -> bool {
    polled64_until_clear(ops, base, offset, mask, max, true) || polled64_until_clear(ops, base, offset, mask, max, false)
}

/// The `k` accesses of `t` from index `n` on are a poll of the channel
/// enable bits `mask` that ended `cleared` or not.
pub open spec fn start_poll(t: Seq<BusOp>, n: int, k: int, base: usize, mask: u64, cleared: bool) -> bool {
    &&& 1 <= k
    &&& n + k <= t.len()
    &&& polled64_until_clear(t.subrange(n, n + k), base, DMA_CH_EN_OFFSET, mask, DMA_START_RETRIES as int, cleared)
}

/// A DMA controller and its eight channels.
pub struct DmaController {
    pub base: usize,
    pub nr_channels: usize,
    pub nr_masters: usize,
    pub data_width: [u32; 4],
    pub block_size: u32,
    pub in_use: u64,
    pub channels: [DmaChannel; 8],
}

/// `t` is `t0` followed by a reset of the controller at `base`: the reset
/// bit written, then a bounded poll for it to clear.
pub open spec fn controller_reset_ops(t0: Seq<BusOp>, t: Seq<BusOp>, base: usize) -> bool {
    &&& t.len() > t0.len() + 1
    &&& t.subrange(0, t0.len() + 1int) == t0.push(dma_write(base, DMA_RESET_OFFSET, 1))
    &&& poll_outcome64(t.subrange(t0.len() + 1int, t.len() as int), base, DMA_RESET_OFFSET, 0xFFFF_FFFF_FFFF_FFFF, DMA_POLL_LIMIT as int)
}

/// The writes that clear every interrupt of channels `0` to `n - 1` of
/// `chs`, in order.
pub open spec fn channel_int_clears(chs: Seq<DmaChannel>, n: int) -> Seq<BusOp>
    decreases n,
{
    if n <= 0 {
        Seq::empty()
    } else {
        channel_int_clears(chs, n - 1).push(ch_write(&chs[n - 1], CH_INT_CLEAR_OFFSET, 0xFFFF_FFFF))
    }
}

/// `t` is `t0` followed by the disabling of channel `ch` of the controller
/// at `base`: a read of the enable register, a write of it with the
/// channel's enable bit cleared and its write-enable, abort-write-enable and
/// abort bits set, then a bounded poll for the enable bit to clear.
pub open spec fn channel_disable_ops(t0: Seq<BusOp>, t: Seq<BusOp>, base: usize, ch: usize) -> bool {
    let n = t0.len();
    let m = 1u64 << (ch as u64);
    &&& t.len() > n + 2
    &&& t[n as int] matches BusOp::Read64 { base: b, offset: o, value: v } && b == base
        && o == DMA_CH_EN_OFFSET && t[n + 1int] == dma_write(
        base,
        DMA_CH_EN_OFFSET,
        (v | (m << CH_EN_WE_OFFSET) | (m << CH_ABORT_WE_OFFSET) | (m << CH_ABORT_OFFSET)) & !m,
    )
    &&& t.subrange(0, n as int) == t0
    &&& poll_outcome64(t.subrange(n + 2int, t.len() as int), base, DMA_CH_EN_OFFSET, m, DMA_POLL_LIMIT as int)
}

/// The common register `offset` of the controller at `base`.
pub open spec fn dma_write(base: usize, offset: usize, value: u64) -> BusOp {
    BusOp::Write64 { base, offset, value }
}

pub open spec fn dma_read(base: usize, offset: usize, value: u64) -> BusOp {
    BusOp::Read64 { base, offset, value }
}

impl DmaController {
    pub open spec fn base(&self) -> usize {
        self.base
    }

    /// The controller's invariant: every channel sits at its place.
    pub open spec fn wf(&self) -> bool {
        &&& self.nr_channels <= DMA_MAX_CHANNELS
        &&& forall|i: int|
            0 <= i < 8 ==> (#[trigger] self.channels@[i]).index == i && self.channels@[i].regs
                == channel_regs(self.base(), i as usize)
    }

    /// The controller at `base`, with all channels idle.
    pub fn new(base: usize) -> (c: Self)
        requires
            base + 0x900 <= usize::MAX,
        ensures
            c.wf(),
            c.base() == base,
            c.nr_channels == DMA_MAX_CHANNELS,
            c.nr_masters == 2,
            c.data_width@ == seq![4u32, 4, 4, 4],
            c.block_size == DMA_DEFAULT_BLOCK_SIZE,
            c.in_use == 0,
            forall|i: int| 0 <= i < 8 ==> !(#[trigger] c.channels@[i]).is_initialized,
    {
        let c = DmaController {
            base,
            nr_channels: DMA_MAX_CHANNELS,
            nr_masters: 2,
            data_width: [4, 4, 4, 4],
            block_size: DMA_DEFAULT_BLOCK_SIZE,
            in_use: 0,
            channels: [
                DmaChannel::new(0, base),
                DmaChannel::new(1, base),
                DmaChannel::new(2, base),
                DmaChannel::new(3, base),
                DmaChannel::new(4, base),
                DmaChannel::new(5, base),
                DmaChannel::new(6, base),
                DmaChannel::new(7, base),
            ],
        };
        assert(c.data_width@ =~= seq![4u32, 4, 4, 4]);
        c
    }

    /// Reads the common register at `offset`.
    pub fn read_reg<B: RegisterBus>(&self, mmio: &mut Mmio<B>, offset: usize) -> (v: u64)
        ensures
            final(mmio).trace() == old(mmio).trace().push(dma_read(self.base(), offset, v)),
    {
        mmio.read64(self.base, offset)
    }

    /// Writes the common register at `offset`.
    pub fn write_reg<B: RegisterBus>(&self, mmio: &mut Mmio<B>, offset: usize, value: u64)
        ensures
            final(mmio).trace() == old(mmio).trace().push(dma_write(self.base(), offset, value)),
    {
        mmio.write64(self.base, offset, value);
    }

    /// Initialises the controller: reset (with a bounded wait), disabled,
    /// channel priorities set (channel 0 highest) with the controller's block
    /// size, every interrupt of each channel cleared, and the write-enable
    /// bits of the channel enable and pause fields cleared.
    pub fn init<B: RegisterBus>(&mut self, mmio: &mut Mmio<B>)
        requires
            old(self).wf(),
        ensures
            final(self).wf(),
            final(self).base() == old(self).base(),
            final(self).nr_channels == old(self).nr_channels,
            final(self).nr_masters == old(self).nr_masters,
            final(self).data_width == old(self).data_width,
            final(self).block_size == old(self).block_size,
            final(self).in_use == old(self).in_use,
            forall|i: int| 0 <= i < 8 ==> #[trigger] final(self).channels@[i] == if i < old(self).nr_channels {
                DmaChannel {
                    priority: (old(self).nr_channels - i - 1) as u8,
                    block_size: old(self).block_size,
                    ..old(self).channels@[i]
                }
            } else {
                old(self).channels@[i]
            },
            exists|mid: Seq<BusOp>|
                #![trigger controller_reset_ops(old(mmio).trace(), mid, old(self).base())]
                controller_reset_ops(old(mmio).trace(), mid, old(self).base())
                && final(mmio).trace() == mid.push(dma_write(old(self).base(), DMA_CFG_OFFSET, 0))
                + channel_int_clears(old(self).channels@, old(self).nr_channels as int)
                + seq![dma_write(old(self).base(), DMA_CH_EN_OFFSET, (0xFFu64 << CH_EN_WE_OFFSET) | (0xFFu64 << CH_PAUSE_EN_OFFSET))],
    {
        self.reset(mmio);
        let ghost mid = mmio.trace();
        self.disable(mmio);
        let ghost t1 = mmio.trace();
        let ghost chs = old(self).channels@;
        let n = self.nr_channels;
        let mut i: usize = 0;
        while i < n
            invariant
                self.wf(),
                n == self.nr_channels,
                n <= 8,
                i <= n,
                self.base() == old(self).base(),
                self.nr_channels == old(self).nr_channels,
                self.nr_masters == old(self).nr_masters,
                self.data_width == old(self).data_width,
                self.block_size == old(self).block_size,
                self.in_use == old(self).in_use,
                chs == old(self).channels@,
                forall|j: int| 0 <= j < 8 ==> #[trigger] self.channels@[j] == if j < i {
                    DmaChannel { priority: (n - j - 1) as u8, block_size: old(self).block_size, ..chs[j] }
                } else {
                    chs[j]
                },
                mmio.trace() == t1 + channel_int_clears(chs, i as int),
            decreases n - i,
        {
            self.channels[i].priority = (n - i - 1) as u8;
            self.channels[i].block_size = self.block_size;
            self.channels[i].clear_interrupt(mmio, 0xFFFF_FFFF);
            proof {
                assert(channel_int_clears(chs, i + 1) == channel_int_clears(chs, i as int).push(
                    ch_write(&chs[i as int], CH_INT_CLEAR_OFFSET, 0xFFFF_FFFF)));
                assert(mmio.trace() =~= t1 + channel_int_clears(chs, i + 1));
            }
            i = i + 1;
        }
        let ghost t2 = mmio.trace();
        self.clear_channel_enable_bits(mmio);
        proof {
            assert(mmio.trace() =~= mid.push(dma_write(old(self).base(), DMA_CFG_OFFSET, 0))
                + channel_int_clears(chs, n as int)
                + seq![dma_write(old(self).base(), DMA_CH_EN_OFFSET, (0xFFu64 << CH_EN_WE_OFFSET) | (0xFFu64 << CH_PAUSE_EN_OFFSET))]);
        }
    }

    /// Resets the controller and waits, boundedly, for the reset bit to clear.
    pub fn reset<B: RegisterBus>(&self, mmio: &mut Mmio<B>)
        ensures
            controller_reset_ops(old(mmio).trace(), final(mmio).trace(), self.base()),
    {
        let ghost t0 = mmio.trace();
        mmio.write64(self.base, DMA_RESET_OFFSET, 1);
        let ghost t1 = mmio.trace();
        let done = mmio.poll64_until_clear(self.base, DMA_RESET_OFFSET, 0xFFFF_FFFF_FFFF_FFFF, DMA_POLL_LIMIT);
        proof {
            let t = mmio.trace();
            assert(t.subrange(0, t0.len() + 1int) =~= t.subrange(0, t1.len() as int));
        }
    }

    /// Enables the controller and its interrupt output.
    pub fn enable<B: RegisterBus>(&self, mmio: &mut Mmio<B>)
        ensures
            final(mmio).trace() == old(mmio).trace().push(
                dma_write(self.base(), DMA_CFG_OFFSET, CFG_DMA_EN | CFG_INT_EN),
            ),
    {
        mmio.write64(self.base, DMA_CFG_OFFSET, CFG_DMA_EN | CFG_INT_EN);
    }

    /// Disables the controller.
    pub fn disable<B: RegisterBus>(&self, mmio: &mut Mmio<B>)
        ensures
            final(mmio).trace() == old(mmio).trace().push(dma_write(self.base(), DMA_CFG_OFFSET, 0)),
    {
        mmio.write64(self.base, DMA_CFG_OFFSET, 0);
    }

    /// Whether the controller is enabled.
    pub fn is_enabled<B: RegisterBus>(&self, mmio: &mut Mmio<B>) -> (b: bool)
        ensures
            final(mmio).trace() == old(mmio).trace().push(dma_read(self.base(), DMA_CFG_OFFSET, read64_at(final(mmio).trace(), old(mmio).trace().len() as int))),
            b == (read64_at(final(mmio).trace(), old(mmio).trace().len() as int) & CFG_DMA_EN != 0),
    {
        let v = mmio.read64(self.base, DMA_CFG_OFFSET);
        assert(read64_at(mmio.trace(), old(mmio).trace().len() as int) == v);
        v & CFG_DMA_EN != 0
    }

    /// The channel enable register.
    pub fn read_ch_en<B: RegisterBus>(&self, mmio: &mut Mmio<B>) -> (v: u64)
        ensures
            final(mmio).trace() == old(mmio).trace().push(dma_read(self.base(), DMA_CH_EN_OFFSET, v)),
    {
        mmio.read64(self.base, DMA_CH_EN_OFFSET)
    }

    /// Whether channel `ch` is enabled.
    pub fn is_channel_enabled<B: RegisterBus>(&self, mmio: &mut Mmio<B>, ch: usize) -> (b: bool)
        requires
            ch < 64,
        ensures
            final(mmio).trace() == old(mmio).trace().push(dma_read(self.base(), DMA_CH_EN_OFFSET, read64_at(final(mmio).trace(), old(mmio).trace().len() as int))),
            b == (read64_at(final(mmio).trace(), old(mmio).trace().len() as int) & (1u64 << (ch as u64)) != 0),
    {
        let v = self.read_ch_en(mmio);
        assert(read64_at(mmio.trace(), old(mmio).trace().len() as int) == v);
        v & (1u64 << (ch as u64)) != 0
    }

    /// Enables channel `ch` (its bit together with its write-enable bit).
    pub fn enable_channel<B: RegisterBus>(&self, mmio: &mut Mmio<B>, ch: usize)
        requires
            ch < 8,
        ensures
            final(mmio).trace() == old(mmio).trace().push(
                dma_write(
                    self.base(),
                    DMA_CH_EN_OFFSET,
                    (1u64 << (ch as u64)) | ((1u64 << (ch as u64)) << CH_EN_WE_OFFSET),
                ),
            ),
    {
        let mask = 1u64 << (ch as u64);
        let we_mask = mask << CH_EN_WE_OFFSET;
        mmio.write64(self.base, DMA_CH_EN_OFFSET, mask | we_mask);
    }

    /// Disables (aborting) channel `ch`, then waits, boundedly, for its
    /// enable bit to clear.
    pub fn disable_channel<B: RegisterBus>(&self, mmio: &mut Mmio<B>, ch: usize)
        requires
            ch < 8,
        ensures
            channel_disable_ops(old(mmio).trace(), final(mmio).trace(), self.base(), ch),
    {
        let ghost t0 = mmio.trace();
        let mask = 1u64 << (ch as u64);
        let we_mask = mask << CH_EN_WE_OFFSET;
        let abort_we = mask << CH_ABORT_WE_OFFSET;
        let abort = mask << CH_ABORT_OFFSET;
        let mut val = self.read_ch_en(mmio);
        let ghost v0 = val;
        val = val | we_mask | abort_we | abort;
        val = val & !mask;
        mmio.write64(self.base, DMA_CH_EN_OFFSET, val);
        let ghost t2 = mmio.trace();
        let done = mmio.poll64_until_clear(self.base, DMA_CH_EN_OFFSET, mask, DMA_POLL_LIMIT);
        proof {
            let t = mmio.trace();
            assert(t.subrange(0, t2.len() as int) == t2);
            assert(t[t0.len() as int] == t2[t0.len() as int]);
            assert(t[t0.len() + 1int] == t2[t0.len() + 1int]);
            assert(t.subrange(0, t0.len() as int) =~= t0);
        }
    }

    /// Suspends channel `ch`.
    pub fn pause_channel<B: RegisterBus>(&self, mmio: &mut Mmio<B>, ch: usize)
        requires
            ch < 8,
        ensures
            final(mmio).trace() == old(mmio).trace() + seq![
                    dma_read(self.base(), DMA_CH_EN_OFFSET, read64_at(final(mmio).trace(), old(mmio).trace().len() as int)),
                    dma_write(
                        self.base(),
                        DMA_CH_EN_OFFSET,
                        read64_at(final(mmio).trace(), old(mmio).trace().len() as int) | (1u64 << (ch as u32 + CH_PAUSE_OFFSET)) | (1u64 << (ch as u32 + CH_PAUSE_EN_OFFSET)),
                    ),
                ],
    {
        let pause_bit = 1u64 << (ch as u32 + CH_PAUSE_OFFSET);
        let pause_en_bit = 1u64 << (ch as u32 + CH_PAUSE_EN_OFFSET);
        let v = mmio.read64(self.base, DMA_CH_EN_OFFSET);
        mmio.write64(self.base, DMA_CH_EN_OFFSET, v | pause_bit | pause_en_bit);
        assert(read64_at(mmio.trace(), old(mmio).trace().len() as int) == v);
        assert(mmio.trace() =~= old(mmio).trace() + seq![
            dma_read(self.base, DMA_CH_EN_OFFSET, v),
            dma_write(self.base, DMA_CH_EN_OFFSET, v | pause_bit | pause_en_bit),
        ]);
    }

    /// Resumes channel `ch`.
    pub fn resume_channel<B: RegisterBus>(&self, mmio: &mut Mmio<B>, ch: usize)
        requires
            ch < 8,
        ensures
            final(mmio).trace() == old(mmio).trace() + seq![
                    dma_read(self.base(), DMA_CH_EN_OFFSET, read64_at(final(mmio).trace(), old(mmio).trace().len() as int)),
                    dma_write(self.base(), DMA_CH_EN_OFFSET, read64_at(final(mmio).trace(), old(mmio).trace().len() as int) & !(1u64 << (ch as u32 + CH_PAUSE_OFFSET))),
                ],
    {
        let pause_bit = 1u64 << (ch as u32 + CH_PAUSE_OFFSET);
        let v = mmio.read64(self.base, DMA_CH_EN_OFFSET);
        mmio.write64(self.base, DMA_CH_EN_OFFSET, v & !pause_bit);
        assert(read64_at(mmio.trace(), old(mmio).trace().len() as int) == v);
        assert(mmio.trace() =~= old(mmio).trace() + seq![
            dma_read(self.base, DMA_CH_EN_OFFSET, v),
            dma_write(self.base, DMA_CH_EN_OFFSET, v & !pause_bit),
        ]);
    }

    fn clear_channel_enable_bits<B: RegisterBus>(&self, mmio: &mut Mmio<B>)
        ensures
            final(mmio).trace() == old(mmio).trace().push(
                dma_write(self.base(), DMA_CH_EN_OFFSET, (0xFFu64 << CH_EN_WE_OFFSET) | (0xFFu64 << CH_PAUSE_EN_OFFSET)),
            ),
    {
        let we_mask = 0xFFu64 << CH_EN_WE_OFFSET;
        let pause_en_mask = 0xFFu64 << CH_PAUSE_EN_OFFSET;
        mmio.write64(self.base, DMA_CH_EN_OFFSET, we_mask | pause_en_mask);
    }

    /// The combined interrupt status.
    pub fn read_int_status<B: RegisterBus>(&self, mmio: &mut Mmio<B>) -> (v: u64)
        ensures
            final(mmio).trace() == old(mmio).trace().push(dma_read(self.base(), DMA_INT_STATUS_OFFSET, v)),
    {
        mmio.read64(self.base, DMA_INT_STATUS_OFFSET)
    }

    /// Clears the common interrupts of `mask`.
    pub fn clear_common_int<B: RegisterBus>(&self, mmio: &mut Mmio<B>, mask: u64)
        ensures
            final(mmio).trace() == old(mmio).trace().push(dma_write(self.base(), DMA_COMM_INT_CLEAR_OFFSET, mask)),
    {
        mmio.write64(self.base, DMA_COMM_INT_CLEAR_OFFSET, mask);
    }

    /// Claims channel `ch`; the first claim enables the controller.  Returns
    /// the channel.
    pub fn alloc_channel<B: RegisterBus>(&mut self, mmio: &mut Mmio<B>, ch: usize) -> (r: Result<usize, &'static str>)
        requires
            old(self).wf(),
        ensures
            final(self).wf(),
            final(self).base() == old(self).base(),
            final(self).nr_channels == old(self).nr_channels,
            final(self).channels == old(self).channels,
            ch >= old(self).nr_channels ==> r == Err::<usize, &'static str>("Invalid channel number")
                && *final(self) == *old(self) && final(mmio).trace() == old(mmio).trace(),
            ch < old(self).nr_channels && old(self).in_use & (1u64 << (ch as u64)) != 0 ==> r == Err::<
                usize,
                &'static str,
            >("Channel already in use") && *final(self) == *old(self) && final(mmio).trace() == old(mmio).trace(),
            ch < old(self).nr_channels && old(self).in_use & (1u64 << (ch as u64)) == 0 ==> {
                &&& r == Ok::<usize, &'static str>(ch)
                &&& final(self).in_use == old(self).in_use | (1u64 << (ch as u64))
                &&& final(mmio).trace() == if old(self).in_use == 0 {
                    old(mmio).trace().push(dma_write(old(self).base(), DMA_CFG_OFFSET, CFG_DMA_EN | CFG_INT_EN))
                } else {
                    old(mmio).trace()
                }
            },
    {
        if ch >= self.nr_channels {
            return Err("Invalid channel number");
        }
        if self.in_use & (1u64 << (ch as u64)) != 0 {
            return Err("Channel already in use");
        }
        if self.in_use == 0 {
            self.enable(mmio);
        }
        self.in_use = self.in_use | (1u64 << (ch as u64));
        Ok(ch)
    }

    /// Releases channel `ch`: disables it and its interrupts, and disables the
    /// controller with the last channel.
    pub fn free_channel<B: RegisterBus>(&mut self, mmio: &mut Mmio<B>, ch: usize)
        requires
            old(self).wf(),
        ensures
            final(self).wf(),
            final(self).base() == old(self).base(),
            final(self).nr_channels == old(self).nr_channels,
            ch >= old(self).nr_channels ==> *final(self) == *old(self) && final(mmio).trace() == old(mmio).trace(),
            ch < old(self).nr_channels ==> {
                &&& final(self).in_use == old(self).in_use & !(1u64 << (ch as u64))
                &&& !final(self).channels@[ch as int].is_initialized
                &&& !final(self).channels@[ch as int].is_cyclic
                &&& forall|i: int| 0 <= i < 8 && i != ch ==> #[trigger] final(self).channels@[i] == old(self).channels@[i]
                &&& exists|mid: Seq<BusOp>|
                    #![trigger channel_disable_ops(old(mmio).trace(), mid, old(self).base(), ch)]
                    channel_disable_ops(old(mmio).trace(), mid, old(self).base(), ch)
                    && final(mmio).trace() == mid.push(ch_write(&old(self).channels@[ch as int], CH_INT_STATUS_EN_OFFSET, 0))
                        + if final(self).in_use == 0 {
                            seq![dma_write(old(self).base(), DMA_CFG_OFFSET, 0)]
                        } else {
                            Seq::<BusOp>::empty()
                        }
            },
    {
        if ch >= self.nr_channels {
            return;
        }
        self.disable_channel(mmio, ch);
        let ghost mid = mmio.trace();
        self.channels[ch].disable_interrupt(mmio);
        let ghost t2 = mmio.trace();
        self.channels[ch].is_initialized = false;
        self.channels[ch].is_cyclic = false;
        self.in_use = self.in_use & !(1u64 << (ch as u64));
        if self.in_use == 0 {
            self.disable(mmio);
        }
        proof {
            assert(channel_disable_ops(old(mmio).trace(), mid, old(self).base(), ch));
            if self.in_use == 0 {
                assert(mmio.trace() =~= t2 + seq![dma_write(old(self).base(), DMA_CFG_OFFSET, 0)]);
            } else {
                assert(mmio.trace() =~= t2 + Seq::<BusOp>::empty());
            }
        }
    }

    /// Records the slave configuration of channel `ch`.
    pub fn configure_channel(&mut self, ch: usize, config: &DmaSlaveConfig) -> (r: Result<(), &'static str>)
        requires
            old(self).wf(),
        ensures
            final(self).wf(),
            final(self).base() == old(self).base(),
            ch >= old(self).nr_channels ==> r == Err::<(), &'static str>("Invalid channel number")
                && *final(self) == *old(self),
            ch < old(self).nr_channels ==> {
                &&& r is Ok
                &&& final(self).channels@[ch as int].config == *config
                &&& final(self).channels@[ch as int].direction == config.direction
                &&& final(self).nr_channels == old(self).nr_channels
                &&& final(self).in_use == old(self).in_use
            },
    {
        if ch >= self.nr_channels {
            return Err("Invalid channel number");
        }
        self.channels[ch].config = *config;
        self.channels[ch].direction = config.direction;
        Ok(())
    }

    /// Programs the configuration and interrupt enables of channel `ch`,
    /// once: an initialised channel is left as it is.
    pub fn init_channel<B: RegisterBus>(&mut self, mmio: &mut Mmio<B>, ch: usize)
        requires
            old(self).wf(),
            ch < 8,
        ensures
            final(self).wf(),
            final(self).base() == old(self).base(),
            final(self).nr_channels == old(self).nr_channels,
            final(self).in_use == old(self).in_use,
            old(self).channels@[ch as int].is_initialized ==> *final(self) == *old(self) && final(mmio).trace() == old(mmio).trace(),
            !old(self).channels@[ch as int].is_initialized ==> {
                &&& final(mmio).trace() == old(mmio).trace() + seq![
                    ch_write(&old(self).channels@[ch as int], CH_CFG_OFFSET, channel_cfg_value(old(self).channels@[ch as int])),
                    ch_write(&old(self).channels@[ch as int], CH_INT_STATUS_EN_OFFSET, channel_int_value(old(self).channels@[ch as int])),
                ]
                &&& final(self).channels@[ch as int] == (DmaChannel { is_initialized: true, ..old(self).channels@[ch as int] })
                &&& forall|i: int| 0 <= i < 8 && i != ch ==> #[trigger] final(self).channels@[i] == old(self).channels@[i]
            },
    {
        if self.channels[ch].is_initialized {
            return;
        }
        let dst_id = self.channels[ch].dst_id;
        let src_id = self.channels[ch].src_id;
        let priority = self.channels[ch].priority;
        let mut cfg: u64 = 0;
        cfg = cfg | ((dst_id as u64) << CFG_DST_PER_SHIFT);
        cfg = cfg | ((src_id as u64) << CFG_SRC_PER_SHIFT);
        cfg = cfg | (15u64 << CFG_SRC_OSR_LMT_SHIFT);
        cfg = cfg | (15u64 << CFG_DST_OSR_LMT_SHIFT);
        cfg = cfg | ((priority as u64) << CFG_CH_PRIOR_SHIFT);
        cfg = cfg | (3u64 << CFG_DST_MULTBLK_TYPE_SHIFT);
        cfg = cfg | (3u64 << CFG_SRC_MULTBLK_TYPE_SHIFT);
        assert(cfg == ((dst_id as u64) << CFG_DST_PER_SHIFT) | ((src_id as u64) << CFG_SRC_PER_SHIFT)
            | (15u64 << CFG_SRC_OSR_LMT_SHIFT) | (15u64 << CFG_DST_OSR_LMT_SHIFT) | ((priority as u64)
            << CFG_CH_PRIOR_SHIFT) | (3u64 << CFG_DST_MULTBLK_TYPE_SHIFT) | (3u64
            << CFG_SRC_MULTBLK_TYPE_SHIFT)) by (bit_vector)
            requires
                cfg == ((((((0u64 | ((dst_id as u64) << CFG_DST_PER_SHIFT)) | ((src_id as u64) << CFG_SRC_PER_SHIFT))
                    | (15u64 << CFG_SRC_OSR_LMT_SHIFT)) | (15u64 << CFG_DST_OSR_LMT_SHIFT)) | ((priority as u64)
                    << CFG_CH_PRIOR_SHIFT)) | (3u64 << CFG_DST_MULTBLK_TYPE_SHIFT)) | (3u64
                    << CFG_SRC_MULTBLK_TYPE_SHIFT),
        ;
        match self.channels[ch].direction {
            DmaDirection::MemToMem => {
                cfg = cfg | (0u64 << CFG_TT_FC_SHIFT);
            },
            DmaDirection::MemToDev => {
                let fc: u64 = if self.channels[ch].config.device_fc {
                    6
                } else {
                    1
                };
                cfg = cfg | (fc << CFG_TT_FC_SHIFT);
            },
            DmaDirection::DevToMem => {
                let fc: u64 = if self.channels[ch].config.device_fc {
                    4
                } else {
                    2
                };
                cfg = cfg | (fc << CFG_TT_FC_SHIFT);
            },
            DmaDirection::NoDirection => {},
        }
        let ghost t0 = mmio.trace();
        self.channels[ch].write_cfg(mmio, cfg);
        let int_en = if self.channels[ch].is_cyclic {
            INT_BLOCK_TFR_DONE
        } else {
            INT_DMA_TFR_DONE
        };
        self.channels[ch].enable_interrupt(mmio, int_en);
        self.channels[ch].is_initialized = true;
        assert(mmio.trace() =~= t0 + seq![
            ch_write(&old(self).channels@[ch as int], CH_CFG_OFFSET, cfg),
            ch_write(&old(self).channels@[ch as int], CH_INT_STATUS_EN_OFFSET, int_en),
        ]);
    }

    /// Starts the linked-list transfer at `lli_phys` on channel `ch`, once the
    /// channel is no longer enabled (given up after [`DMA_START_RETRIES`] reads).
    pub fn start_transfer<B: RegisterBus>(&mut self, mmio: &mut Mmio<B>, ch: usize, lli_phys: u64) -> (r:
        Result<(), &'static str>)
        requires
            old(self).wf(),
        ensures
            final(self).wf(),
            final(self).base() == old(self).base(),
            final(self).nr_channels == old(self).nr_channels,
            final(self).in_use == old(self).in_use,
            ch >= old(self).nr_channels ==> r == Err::<(), &'static str>("Invalid channel number")
                && *final(self) == *old(self) && final(mmio).trace() == old(mmio).trace(),
            ch < old(self).nr_channels ==> {
                let n = old(mmio).trace().len();
                let t = final(mmio).trace();
                exists|k: int, cleared: bool|
                    #[trigger] start_poll(t, n as int, k, old(self).base(), 1u64 << (ch as u64), cleared) && {
                        &&& t.subrange(0, n as int) == old(mmio).trace()
                        &&& !cleared ==> r == Err::<(), &'static str>("Channel busy timeout") && t.len() == n + k && *final(self) == *old(self)
                        &&& cleared ==> r is Ok && t.len() >= n + k + 2
                            && t[t.len() - 2] == ch_write(&old(self).channels@[ch as int], CH_LLP_OFFSET, lli_phys)
                            && t[t.len() - 1] == dma_write(old(self).base(), DMA_CH_EN_OFFSET, (1u64 << (ch as u64)) | ((1u64 << (ch as u64)) << CH_EN_WE_OFFSET))
                            && final(self).channels@[ch as int].is_initialized
                    }
            },
    {
        if ch >= self.nr_channels {
            return Err("Invalid channel number");
        }
        let ghost t0 = mmio.trace();
        let cleared = mmio.poll64_until_clear(self.base, DMA_CH_EN_OFFSET, 1u64 << (ch as u64), DMA_START_RETRIES);
        let ghost t1 = mmio.trace();
        let ghost k = t1.len() - t0.len();
        if !cleared {
            assert(t1.subrange(t0.len() as int, t0.len() + k) =~= t1.subrange(t0.len() as int, t1.len() as int));
            assert(start_poll(t1, t0.len() as int, k, self.base, 1u64 << (ch as u64), cleared));
            return Err("Channel busy timeout");
        }
        self.init_channel(mmio, ch);
        let ghost t2 = mmio.trace();
        assert(t2.subrange(0, t1.len() as int) =~= t1);
        self.channels[ch].write_llp(mmio, lli_phys);
        self.enable_channel(mmio, ch);
        proof {
            let t = mmio.trace();
            assert(t.subrange(0, t1.len() as int) =~= t2.subrange(0, t1.len() as int));
            assert(t.subrange(t0.len() as int, t0.len() + k) =~= t1.subrange(t0.len() as int, t1.len() as int));
            assert(t.subrange(0, t0.len() as int) =~= t0);
            assert(start_poll(t, t0.len() as int, k, self.base, 1u64 << (ch as u64), cleared));
            assert(t0 == old(mmio).trace());
            assert(t.len() >= t0.len() + k + 2);
            assert(t[t.len() - 2] == ch_write(&old(self).channels@[ch as int], CH_LLP_OFFSET, lli_phys));
            assert(t[t.len() - 1] == dma_write(old(self).base(), DMA_CH_EN_OFFSET, (1u64 << (ch as u64)) | ((1u64 << (ch as u64)) << CH_EN_WE_OFFSET)));
            assert(self.channels@[ch as int].is_initialized);
        }
        Ok(())
    }

    /// Acknowledges the common interrupts and every channel that has a
    /// pending interrupt.  Returns the set of such channels, one bit each
    /// (0 when the controller reported nothing).
    pub fn handle_interrupt<B: RegisterBus>(&mut self, mmio: &mut Mmio<B>) -> (handled: u64)
        requires
            old(self).wf(),
        ensures
            *final(self) == *old(self),
            final(mmio).trace().len() >= old(mmio).trace().len() + 1,
            final(mmio).trace()[old(mmio).trace().len() as int] matches BusOp::Read64 { base: b, offset: o, value: s }
                && b == old(self).base() && o == DMA_INT_STATUS_OFFSET && (s == 0 ==> handled == 0
                && final(mmio).trace().len() == old(mmio).trace().len() + 1int),
            handled < (1u64 << (old(self).nr_channels as u64)),
    {
        let status = self.read_int_status(mmio);
        let ghost t1 = mmio.trace();
        let nr = self.nr_channels as u64;
        assert(0u64 < (1u64 << nr) && 0u64 < (1u64 << 0u64)) by (bit_vector)
            requires
                nr <= 8,
        ;
        if status == 0 {
            return 0;
        }
        self.clear_common_int(mmio, 0x10F);
        let mut handled: u64 = 0;
        let mut ch: usize = 0;
        while ch < self.nr_channels
            invariant
                self.wf(),
                *self == *old(self),
                ch <= self.nr_channels,
                handled < (1u64 << (ch as u64)),
                mmio.trace().len() >= t1.len(),
                mmio.trace().subrange(0, t1.len() as int) == t1,
            decreases self.nr_channels - ch,
        {
            let ghost tc = mmio.trace();
            let ch_status = self.channels[ch].read_int_status(mmio);
            if ch_status != 0 {
                self.channels[ch].clear_interrupt(mmio, ch_status);
                assert(handled | (1u64 << (ch as u64)) < (1u64 << ((ch + 1) as u64))) by (bit_vector)
                    requires
                        handled < (1u64 << (ch as u64)),
                        ch < 8,
                ;
                handled = handled | (1u64 << (ch as u64));
            } else {
                assert((1u64 << (ch as u64)) < (1u64 << ((ch + 1) as u64))) by (bit_vector)
                    requires
                        ch < 8,
                ;
            }
            proof {
                assert(mmio.trace().subrange(0, t1.len() as int) =~= tc.subrange(0, t1.len() as int));
            }
            ch = ch + 1;
        }
        proof {
            assert(mmio.trace()[t1.len() - 1] == t1[t1.len() - 1]);
        }
        handled
    }

    /// Bytes left by channel `ch`: `(BLOCK_TS + 1) << SRC_TR_WIDTH`, read from
    /// its registers; 0 for a channel that does not exist.
    pub fn get_residue<B: RegisterBus>(&self, mmio: &mut Mmio<B>, ch: usize) -> (r: u64)
        requires
            self.wf(),
        ensures
            ch >= self.nr_channels ==> r == 0 && final(mmio).trace() == old(mmio).trace(),
            ch < self.nr_channels ==> exists|ts: u64, ctl: u64|
                final(mmio).trace() == old(mmio).trace() + seq![
                    #[trigger] ch_read(&self.channels@[ch as int], CH_BLOCK_TS_OFFSET, ts),
                    #[trigger] ch_read(&self.channels@[ch as int], CH_CTL_OFFSET, ctl),
                ] && r == ((ts & BLOCK_TS_MASK) + 1) * (1u64 << ((ctl >> 8u64) & 0x7)),
    {
        if ch >= self.nr_channels {
            return 0;
        }
        let ghost t0 = mmio.trace();
        let ts = self.channels[ch].read_block_ts(mmio);
        let block_ts = ts & BLOCK_TS_MASK;
        assert(ts & 0x3FFFFFu64 <= 0x3FFFFF) by (bit_vector);
        let ctl = self.channels[ch].read_ctl(mmio);
        let width = (ctl >> 8u64) & 0x7;
        assert((ctl >> 8u64) & 0x7u64 <= 7) by (bit_vector);
        assert(1u64 << width <= 128) by (bit_vector)
            requires
                width <= 7,
        ;
        assert((block_ts + 1) * (1u64 << width) <= 0x400000 * 128) by (nonlinear_arith)
            requires
                block_ts <= 0x3FFFFF,
                (1u64 << width) <= 128,
        ;
        assert(mmio.trace() =~= t0 + seq![
            ch_read(&self.channels@[ch as int], CH_BLOCK_TS_OFFSET, ts),
            ch_read(&self.channels@[ch as int], CH_CTL_OFFSET, ctl),
        ]);
        (block_ts + 1) * (1u64 << width)
    }
}

/// The `CTL` value of a memory-to-memory block: incrementing addresses and
/// status write-back on both sides.
pub open spec fn ctl_m2m_value(src_width: DmaWidth, dst_width: DmaWidth, src_msize: DmaMsize, dst_msize: DmaMsize) -> u64 {
    ((msize_code(dst_msize) as u64) << CTL_DST_MSIZE_SHIFT) | ((msize_code(src_msize) as u64)
        << CTL_SRC_MSIZE_SHIFT) | ((width_code(dst_width) as u64) << CTL_DST_WIDTH_SHIFT) | ((width_code(
        src_width,
    ) as u64) << CTL_SRC_WIDTH_SHIFT) | CTL_DST_INC | CTL_SRC_INC | CTL_DST_STA_EN | CTL_SRC_STA_EN
}

/// Builds the `CTL` value of a memory-to-memory block.
pub fn build_ctl_m2m(src_width: DmaWidth, dst_width: DmaWidth, src_msize: DmaMsize, dst_msize: DmaMsize) -> (ctl:
    u64)
    ensures
        ctl == ctl_m2m_value(src_width, dst_width, src_msize, dst_msize),
{
    ((dst_msize.code() as u64) << CTL_DST_MSIZE_SHIFT) | ((src_msize.code() as u64)
        << CTL_SRC_MSIZE_SHIFT) | ((dst_width.code() as u64) << CTL_DST_WIDTH_SHIFT) | ((src_width.code() as u64) << CTL_SRC_WIDTH_SHIFT) | CTL_DST_INC | CTL_SRC_INC | CTL_DST_STA_EN | CTL_SRC_STA_EN
}

/// The `CTL` value of a slave block in `direction`: the memory side
/// increments with `mem_width`, the device side stays fixed with `reg_width`.
pub open spec fn ctl_slave_value(direction: DmaDirection, mem_width: DmaWidth, reg_width: DmaWidth, msize: DmaMsize) -> u64 {
    let common = ((msize_code(msize) as u64) << CTL_DST_MSIZE_SHIFT) | ((msize_code(msize) as u64)
        << CTL_SRC_MSIZE_SHIFT) | CTL_DST_STA_EN | CTL_SRC_STA_EN;
    match direction {
        DmaDirection::MemToDev => common | ((width_code(reg_width) as u64) << CTL_DST_WIDTH_SHIFT) | ((
        width_code(mem_width) as u64) << CTL_SRC_WIDTH_SHIFT) | CTL_DST_FIX | CTL_SRC_INC,
        DmaDirection::DevToMem => common | ((width_code(mem_width) as u64) << CTL_DST_WIDTH_SHIFT) | ((
        width_code(reg_width) as u64) << CTL_SRC_WIDTH_SHIFT) | CTL_DST_INC | CTL_SRC_FIX,
        _ => common,
    }
}

/// Builds the `CTL` value of a slave block.
pub fn build_ctl_slave(direction: DmaDirection, mem_width: DmaWidth, reg_width: DmaWidth, msize: DmaMsize) -> (ctl:
    u64)
    ensures
        ctl == ctl_slave_value(direction, mem_width, reg_width, msize),
{
    let common = ((msize.code() as u64) << CTL_DST_MSIZE_SHIFT) | ((msize.code() as u64)
        << CTL_SRC_MSIZE_SHIFT) | CTL_DST_STA_EN | CTL_SRC_STA_EN;
    match direction {
        DmaDirection::MemToDev => common | ((reg_width.code() as u64) << CTL_DST_WIDTH_SHIFT) | ((
        mem_width.code() as u64) << CTL_SRC_WIDTH_SHIFT) | CTL_DST_FIX | CTL_SRC_INC,
        DmaDirection::DevToMem => common | ((mem_width.code() as u64) << CTL_DST_WIDTH_SHIFT) | ((
        reg_width.code() as u64) << CTL_SRC_WIDTH_SHIFT) | CTL_DST_INC | CTL_SRC_FIX,
        _ => common,
    }
}

/// The transfer width of a memory copy as a power of two: the trailing zero
/// bits of the data width, both addresses and the length (their low 32 bits
/// together), at most 6 (64 bytes).
pub open spec fn memcpy_width_log2(data_width: u32, src: u64, dst: u64, len: usize) -> u32 {
    let t = vstd::std_specs::bits::u32_trailing_zeros(data_width | (src as u32) | (dst as u32) | (len as u32));
    if t < 6 {
        t
    } else {
        6
    }
}

/// Two to the power `e`, for `e` up to 6.
pub open spec fn pow2_small(e: u32) -> int {
    if e == 0 {
        1
    } else if e == 1 {
        2
    } else if e == 2 {
        4
    } else if e == 3 {
        8
    } else if e == 4 {
        16
    } else if e == 5 {
        32
    } else {
        64
    }
}

/// Bytes of a full block of a copy at transfer width `g`: the block size
/// rounded down to a multiple of `g`.
pub open spec fn memcpy_chunk(block_size: u32, g: int) -> int {
    (block_size as int / g) * g
}

/// Blocks of `chunk` bytes that `len` bytes take.
pub open spec fn memcpy_blocks(len: int, chunk: int) -> int {
    (len + chunk - 1) / chunk
}

/// Items a copy of `len` bytes uses when `cap` items are available.
pub open spec fn memcpy_lli_count(cap: int, len: int, chunk: int) -> int {
    if cap == 0 || len == 0 {
        0
    } else if memcpy_blocks(len, chunk) < cap {
        memcpy_blocks(len, chunk)
    } else {
        cap
    }
}

/// Item `k` of a copy after its block is set up: the block's addresses,
/// its transfer count less one (at most a full block, at most what is
/// left), and `ctl` marked valid.
pub open spec fn memcpy_block_item(item: DmaLli, k: int, src: u64, dst: u64, len: int, chunk: int, g: int, per_block: int, ctl: u64) -> DmaLli {
    let off = k * chunk;
    let left = (len - off) / g;
    DmaLli {
        sar: (src + off) as u64,
        dar: (dst + off) as u64,
        block_ts: ((if left < per_block { left } else { per_block }) - 1) as u64,
        ctl: ctl | CTL_LLI_VALID,
        ..item
    }
}

/// Item `k` of `n` of a finished chain at `phys`: linked to the next item,
/// the last one marked last and linked to nothing.
pub open spec fn memcpy_linked_item(item: DmaLli, k: int, n: int, phys: u64) -> DmaLli {
    if k == n - 1 {
        DmaLli { ctl: item.ctl | CTL_LLI_LAST, llp: 0, ..item }
    } else {
        DmaLli { llp: (phys + (k + 1) * DMA_LLI_SIZE) as u64, ..item }
    }
}

proof fn lemma_low_bits_clear(v: u32, o: u32, len: usize, tw: u32)
    requires
        v == o | (len as u32),
        tw <= 6,
        forall|j: u32| 0 <= j < tw ==> #[trigger] ((v >> j) & 1u32) == 0u32,
    ensures
        len % (pow2_small(tw) as usize) == 0,
{
    if tw >= 1 {
        assert((v >> 0u32) & 1u32 == 0u32);
    }
    if tw >= 2 {
        assert((v >> 1u32) & 1u32 == 0u32);
    }
    if tw >= 3 {
        assert((v >> 2u32) & 1u32 == 0u32);
    }
    if tw >= 4 {
        assert((v >> 3u32) & 1u32 == 0u32);
    }
    if tw >= 5 {
        assert((v >> 4u32) & 1u32 == 0u32);
    }
    if tw >= 6 {
        assert((v >> 5u32) & 1u32 == 0u32);
    }
    if tw == 1 {
        assert(len % 2 == 0) by (bit_vector)
            requires
                v == o | (len as u32),
                (v >> 0u32) & 1u32 == 0u32,
        ;
    } else if tw == 2 {
        assert(len % 4 == 0) by (bit_vector)
            requires
                v == o | (len as u32),
                (v >> 0u32) & 1u32 == 0u32,
                (v >> 1u32) & 1u32 == 0u32,
        ;
    } else if tw == 3 {
        assert(len % 8 == 0) by (bit_vector)
            requires
                v == o | (len as u32),
                (v >> 0u32) & 1u32 == 0u32,
                (v >> 1u32) & 1u32 == 0u32,
                (v >> 2u32) & 1u32 == 0u32,
        ;
    } else if tw == 4 {
        assert(len % 16 == 0) by (bit_vector)
            requires
                v == o | (len as u32),
                (v >> 0u32) & 1u32 == 0u32,
                (v >> 1u32) & 1u32 == 0u32,
                (v >> 2u32) & 1u32 == 0u32,
                (v >> 3u32) & 1u32 == 0u32,
        ;
    } else if tw == 5 {
        assert(len % 32 == 0) by (bit_vector)
            requires
                v == o | (len as u32),
                (v >> 0u32) & 1u32 == 0u32,
                (v >> 1u32) & 1u32 == 0u32,
                (v >> 2u32) & 1u32 == 0u32,
                (v >> 3u32) & 1u32 == 0u32,
                (v >> 4u32) & 1u32 == 0u32,
        ;
    } else if tw == 6 {
        assert(len % 64 == 0) by (bit_vector)
            requires
                v == o | (len as u32),
                (v >> 0u32) & 1u32 == 0u32,
                (v >> 1u32) & 1u32 == 0u32,
                (v >> 2u32) & 1u32 == 0u32,
                (v >> 3u32) & 1u32 == 0u32,
                (v >> 4u32) & 1u32 == 0u32,
                (v >> 5u32) & 1u32 == 0u32,
        ;
    }
}

/// `k` blocks of `chunk` bytes start inside `len` bytes exactly when `k` is
/// below the number of blocks that `len` bytes take.
proof fn lemma_blocks(len: int, chunk: int, k: int)
    requires
        len > 0,
        chunk > 0,
        k >= 0,
    ensures
        k * chunk < len <==> k < memcpy_blocks(len, chunk),
{
    let q = memcpy_blocks(len, chunk);
    vstd::arithmetic::div_mod::lemma_fundamental_div_mod(len + chunk - 1, chunk);
    let r = (len + chunk - 1) % chunk;
    assert(0 <= r < chunk);
    assert(len + chunk - 1 == chunk * q + r);
    if k < q {
        assert(k * chunk <= (q - 1) * chunk) by (nonlinear_arith)
            requires
                k <= q - 1,
                chunk > 0,
        ;
        assert((q - 1) * chunk == chunk * q - chunk) by (nonlinear_arith);
    } else {
        assert(k * chunk >= q * chunk) by (nonlinear_arith)
            requires
                k >= q,
                chunk > 0,
        ;
        assert(q * chunk == chunk * q) by (nonlinear_arith);
    }
}

/// The blocks of a copy tile it: with enough items, block `k` starts `k`
/// full blocks into the copy and covers `(block_ts + 1)` transfers of the
/// transfer width, so that block `k + 1` starts where block `k` ends, and
/// the last block ends exactly at the end of the copy.
pub proof fn lemma_memcpy_blocks_tile(src: u64, dst: u64, len: usize, block_size: u32, data_width: u32, k: int)
    requires
        len > 0,
        block_size as int / pow2_small(memcpy_width_log2(data_width, src, dst, len)) >= 1,
        0 <= k < memcpy_blocks(
            len as int,
            memcpy_chunk(block_size, pow2_small(memcpy_width_log2(data_width, src, dst, len))),
        ),
    ensures
        ({
            let g = pow2_small(memcpy_width_log2(data_width, src, dst, len));
            let chunk = memcpy_chunk(block_size, g);
            let item = memcpy_block_item(DmaLli::new_spec(), k, src, dst, len as int, chunk, g, block_size as int / g, 0);
            let end = k * chunk + (item.block_ts + 1) * g;
            &&& k + 1 < memcpy_blocks(len as int, chunk) ==> end == (k + 1) * chunk
            &&& k + 1 == memcpy_blocks(len as int, chunk) ==> end == len
        }),
{
    let v = data_width | (src as u32) | (dst as u32) | (len as u32);
    let tz = vstd::std_specs::bits::u32_trailing_zeros(v);
    let tw: u32 = if tz < 6 { tz } else { 6 };
    vstd::std_specs::bits::axiom_u32_trailing_zeros(v);
    lemma_low_bits_clear(v, data_width | (src as u32) | (dst as u32), len, tw);
    let g = pow2_small(tw);
    assert(g == pow2_small(memcpy_width_log2(data_width, src, dst, len)));
    let per = block_size as int / g;
    let chunk = per * g;
    assert(chunk >= g) by (nonlinear_arith)
        requires
            per >= 1,
            g >= 1,
            chunk == per * g,
    ;
    lemma_blocks(len as int, chunk, k);
    lemma_blocks(len as int, chunk, k + 1);
    let off = k * chunk;
    let a = (len as int) / g;
    vstd::arithmetic::div_mod::lemma_fundamental_div_mod(len as int, g);
    assert(len == g * a);
    assert(off == g * (k * per)) by (nonlinear_arith)
        requires
            off == k * chunk,
            chunk == per * g,
    ;
    assert(len - off == g * (a - k * per)) by (nonlinear_arith)
        requires
            len == g * a,
            off == g * (k * per),
    ;
    vstd::arithmetic::div_mod::lemma_div_multiples_vanish(a - k * per, g);
    let left = (len - off) / g;
    assert(left == a - k * per);
    assert(left >= 1) by (nonlinear_arith)
        requires
            len - off == g * left,
            len - off > 0,
            g >= 1,
    ;
    let m = if left < per { left } else { per };
    if k + 1 < memcpy_blocks(len as int, chunk) {
        assert((k + 1) * chunk == off + chunk) by (nonlinear_arith)
            requires
                off == k * chunk,
        ;
        assert(left >= per) by (nonlinear_arith)
            requires
                len - off == g * left,
                len - off > chunk,
                chunk == per * g,
                g >= 1,
        ;
        assert(m * g == chunk) by (nonlinear_arith)
            requires
                m == per,
                chunk == per * g,
        ;
    } else {
        assert((k + 1) * chunk == off + chunk) by (nonlinear_arith)
            requires
                off == k * chunk,
        ;
        assert(left <= per) by (nonlinear_arith)
            requires
                len - off == g * left,
                len - off <= chunk,
                chunk == per * g,
                g >= 1,
        ;
        assert(m * g == len - off) by (nonlinear_arith)
            requires
                m == left,
                len - off == g * left,
        ;
    }
}

/// Fills `lli_array` with a chain of items that copies `len` bytes from
/// `src` to `dst`: one item per block of at most `block_size` bytes (rounded
/// down to the transfer width, see [`memcpy_width_log2`]), each linked to the
/// next at `lli_array_phys` (the physical address of the first item,
/// [`DMA_LLI_SIZE`] bytes per item), the last one marked last. Returns the
/// number of items used: none for an empty array or an empty copy, and no
/// more than the array holds, even if the copy needs more.
#[verifier::rlimit(40)]
pub fn prepare_memcpy_lli(
    lli_array: &mut [DmaLli],
    lli_array_phys: u64,
    src: u64,
    dst: u64,
    len: usize,
    block_size: u32,
    data_width: u32,
) -> (count: usize)
    requires
        ({
            let g = pow2_small(memcpy_width_log2(data_width, src, dst, len));
            let chunk = memcpy_chunk(block_size, g);
            let n = memcpy_lli_count(old(lli_array)@.len() as int, len as int, chunk);
            &&& (old(lli_array)@.len() > 0 && len > 0) ==> block_size as int / g >= 1
            &&& n > 0 ==> src + (n - 1) * chunk <= u64::MAX && dst + (n - 1) * chunk <= u64::MAX
            &&& n > 1 ==> lli_array_phys + (n - 1) * DMA_LLI_SIZE <= u64::MAX
        }),
    ensures
        ({
            let g = pow2_small(memcpy_width_log2(data_width, src, dst, len));
            let chunk = memcpy_chunk(block_size, g);
            let n = memcpy_lli_count(old(lli_array)@.len() as int, len as int, chunk);
            let width = width_from_bytes(g as usize);
            let ctl = ctl_m2m_value(width, width, DmaMsize::Msize32, DmaMsize::Msize32);
            &&& count == n
            &&& final(lli_array)@.len() == old(lli_array)@.len()
            &&& forall|k: int| 0 <= k < n ==> #[trigger] final(lli_array)@[k] == memcpy_linked_item(
                memcpy_block_item(old(lli_array)@[k], k, src, dst, len as int, chunk, g, block_size as int / g, ctl),
                k, n, lli_array_phys)
            &&& forall|k: int| n <= k < old(lli_array)@.len() ==> #[trigger] final(lli_array)@[k] == old(lli_array)@[k]
        }),
{
    if lli_array.len() == 0 || len == 0 {
        return 0;
    }
    let cap = lli_array.len();
    let v = data_width | (src as u32) | (dst as u32) | (len as u32);
    let tz = v.trailing_zeros();
    let tw: u32 = if tz < 6 { tz } else { 6 };
    proof {
        vstd::std_specs::bits::axiom_u32_trailing_zeros(v);
        lemma_low_bits_clear(v, data_width | (src as u32) | (dst as u32), len, tw);
    }
    let g: usize = if tw == 0 {
        1
    } else if tw == 1 {
        2
    } else if tw == 2 {
        4
    } else if tw == 3 {
        8
    } else if tw == 4 {
        16
    } else if tw == 5 {
        32
    } else {
        64
    };
    let ghost gi = g as int;
    assert(gi == pow2_small(memcpy_width_log2(data_width, src, dst, len)));
    let width = DmaWidth::from_bytes(g);
    let ctl = build_ctl_m2m(width, width, DmaMsize::Msize32, DmaMsize::Msize32);
    let max_block = block_size as usize;
    let per_block = max_block / g;
    let ghost chunk = per_block * gi;
    let ghost n = memcpy_lli_count(cap as int, len as int, chunk);
    assert(per_block >= 1);
    assert(chunk >= gi) by (nonlinear_arith)
        requires
            per_block >= 1,
            gi >= 1,
            chunk == per_block * gi,
    ;
    assert(chunk == memcpy_chunk(block_size, gi));
    let mut offset: usize = 0;
    let mut count: usize = 0;
    while offset < len && count < cap
        invariant
            cap == lli_array@.len(),
            cap == old(lli_array)@.len(),
            len > 0,
            1 <= gi <= 64,
            g == gi,
            len % g == 0,
            per_block >= 1,
            per_block == block_size as int / gi,
            chunk == per_block * gi,
            n == memcpy_lli_count(cap as int, len as int, chunk),
            n > 0 ==> src + (n - 1) * chunk <= u64::MAX && dst + (n - 1) * chunk <= u64::MAX,
            chunk >= gi,
            count <= cap,
            offset <= len,
            count > 0 ==> (count - 1) * chunk < len,
            offset == (if count * chunk < len { count * chunk } else { len as int }),
            forall|k: int| 0 <= k < count ==> #[trigger] lli_array@[k] == memcpy_block_item(
                old(lli_array)@[k], k, src, dst, len as int, chunk, gi, per_block as int, ctl),
            forall|k: int| count <= k < cap ==> #[trigger] lli_array@[k] == old(lli_array)@[k],
        decreases cap - count,
    {
        proof {
            assert(offset == count * chunk);
            lemma_blocks(len as int, chunk, count as int);
            assert(count < n);
            assert(count * chunk <= (n - 1) * chunk) by (nonlinear_arith)
                requires
                    count <= n - 1,
                    chunk >= 0,
            ;
            let a = (len as int) / gi;
            vstd::arithmetic::div_mod::lemma_fundamental_div_mod(len as int, gi);
            assert(len == gi * a);
            assert(offset == gi * (count * per_block)) by (nonlinear_arith)
                requires
                    offset == count * chunk,
                    chunk == per_block * gi,
            ;
            assert(len - offset == gi * (a - count * per_block)) by (nonlinear_arith)
                requires
                    len == gi * a,
                    offset == gi * (count * per_block),
            ;
            vstd::arithmetic::div_mod::lemma_div_multiples_vanish(a - count * per_block, gi);
        }
        let rem = (len - offset) / g;
        let xfer = if rem < per_block { rem } else { per_block };
        proof {
            assert((len - offset) == g * rem);
            assert(rem >= 1) by (nonlinear_arith)
                requires
                    (len - offset) == g * rem,
                    len - offset > 0,
                    g >= 1,
            ;
            assert(xfer * g <= len - offset) by (nonlinear_arith)
                requires
                    xfer <= rem,
                    (len - offset) == g * rem,
                    g >= 1,
            ;
            if rem < per_block {
                assert(xfer * g == len - offset) by (nonlinear_arith)
                    requires
                        xfer == rem,
                        (len - offset) == g * rem,
                ;
                assert(len - offset < chunk) by (nonlinear_arith)
                    requires
                        rem < per_block,
                        (len - offset) == g * rem,
                        chunk == per_block * gi,
                        g == gi,
                        g >= 1,
                ;
            } else {
                assert(xfer * g == chunk);
                assert(chunk <= len - offset) by (nonlinear_arith)
                    requires
                        rem >= per_block,
                        (len - offset) == g * rem,
                        chunk == per_block * gi,
                        g == gi,
                        g >= 1,
                ;
            }
            assert((count + 1) * chunk == count * chunk + chunk) by (nonlinear_arith);
        }
        let mut item = lli_array[count];
        item.sar = src + offset as u64;
        item.dar = dst + offset as u64;
        item.block_ts = (xfer - 1) as u64;
        item.ctl = ctl | CTL_LLI_VALID;
        lli_array[count] = item;
        offset = offset + xfer * g;
        count = count + 1;
    }
    proof {
        if offset >= len {
            lemma_blocks(len as int, chunk, count as int);
            lemma_blocks(len as int, chunk, count - 1);
        } else {
            lemma_blocks(len as int, chunk, count as int);
        }
        assert(count == n);
    }
    let mut last = lli_array[count - 1];
    last.ctl = last.ctl | CTL_LLI_LAST;
    last.llp = 0;
    lli_array[count - 1] = last;
    let mut i: usize = 0;
    while i < count - 1
        invariant
            cap == lli_array@.len(),
            cap == old(lli_array)@.len(),
            count == n,
            1 <= count <= cap,
            i <= count - 1,
            n > 1 ==> lli_array_phys + (n - 1) * DMA_LLI_SIZE <= u64::MAX,
            forall|k: int| 0 <= k < i ==> #[trigger] lli_array@[k] == memcpy_linked_item(
                memcpy_block_item(old(lli_array)@[k], k, src, dst, len as int, chunk, gi, per_block as int, ctl),
                k, n, lli_array_phys),
            forall|k: int| i <= k < count - 1 ==> #[trigger] lli_array@[k] == memcpy_block_item(
                old(lli_array)@[k], k, src, dst, len as int, chunk, gi, per_block as int, ctl),
            lli_array@[count - 1] == memcpy_linked_item(
                memcpy_block_item(old(lli_array)@[count - 1], count - 1, src, dst, len as int, chunk, gi, per_block as int, ctl),
                count - 1, n, lli_array_phys),
            forall|k: int| count <= k < cap ==> #[trigger] lli_array@[k] == old(lli_array)@[k],
        decreases count - 1 - i,
    {
        proof {
            assert((i + 1) * DMA_LLI_SIZE <= (n - 1) * DMA_LLI_SIZE) by (nonlinear_arith)
                requires
                    i + 1 <= n - 1,
            ;
        }
        let mut item = lli_array[i];
        item.llp = lli_array_phys + (i as u64 + 1) * DMA_LLI_SIZE;
        lli_array[i] = item;
        i = i + 1;
    }
    count
}

/// Channel allocation and release on the in-use mask: allocating a free
/// channel marks it, a second allocation of it is refused, and freeing it
/// gives back the mask from before the allocation.
pub proof fn lemma_free_channel_undoes_alloc(in_use: u64, ch: usize)
    requires
        ch < DMA_MAX_CHANNELS,
        in_use & (1u64 << (ch as u64)) == 0,
    ensures
        (in_use | (1u64 << (ch as u64))) & (1u64 << (ch as u64)) != 0,
        (in_use | (1u64 << (ch as u64))) & !(1u64 << (ch as u64)) == in_use,
{
    let c = ch as u64;
    assert(c < 8);
    assert((in_use | (1u64 << c)) & (1u64 << c) != 0 && (in_use & (1u64 << c) == 0 ==> (in_use | (1u64 << c)) & !(1u64 << c) == in_use)) by (bit_vector)
        requires
            c < 8,
    ;
}

} // verus!
