//! JPU register map and the register-level helpers of the decoder.
use crate::mmio::{modify32_ops, polled_until_clear, BusOp, Mmio, RegisterBus};
use crate::soc::TOP_BASE;
use super::layout::{scale_mode, JpuScale};
use vstd::prelude::*;

verus! {

pub const JPU_REG_BASE: usize = 0x0B00_0000;

pub const VC_REG_BASE: usize = 0x0B03_0000;

pub const TOP_DDR_ADDR_MODE_OFF: usize = 0x64;

pub const TOP_CLK_JPEG_OFF: usize = 0x2008;

pub const TOP_RST_JPEG_OFF: usize = 0x3000;

pub const TOP_CLK_JPEG_ENABLE: u32 = 0x3300;

pub const TOP_RST_JPEG_RELEASE_BIT: u32 = 0x10;

pub const TOP_DDR_VD_REMAP_BIT: u32 = 0x0100_0000;

pub const VC_BLOCK_ENABLE: u32 = 0x1F;

pub const JPU_WARMUP_BBC_BASE: u32 = 0x8026_C000;

pub const FORMAT_420: u32 = 0;

pub const FORMAT_422: u32 = 1;

pub const FORMAT_224: u32 = 2;

pub const FORMAT_444: u32 = 3;

pub const FORMAT_400: u32 = 4;

/// Size of the JPEG bitstream buffer.
pub const STREAM_BUF_SIZE: usize = 0x40000;

/// Size of the JPU DMA pool.
pub const JPU_DRAM_PHYSICAL_SIZE: usize = 0x0010_0000;

/// Page size of the JPU DMA pool.
pub const VMEM_PAGE_SIZE: usize = 16384;

// Register offsets inside the JPU block.
pub const PIC_START: usize = 0x000;

pub const PIC_STATUS: usize = 0x004;

pub const PIC_ERRMB: usize = 0x008;

pub const PIC_CTRL: usize = 0x010;

pub const PIC_SIZE: usize = 0x014;

pub const MCU_INFO: usize = 0x018;

pub const ROT_INFO: usize = 0x01C;

pub const SCL_INFO: usize = 0x020;

pub const CLP_INFO: usize = 0x028;

pub const OP_INFO: usize = 0x02C;

pub const DPB_CONFIG: usize = 0x030;

pub const DPB_BASE_Y: usize = 0x034;

pub const DPB_BASE_CB: usize = 0x038;

pub const DPB_BASE_CR: usize = 0x03C;

pub const DPB_YSTRIDE: usize = 0x064;

pub const DPB_CSTRIDE: usize = 0x068;

pub const HUFF_CTRL: usize = 0x080;

pub const HUFF_ADDR: usize = 0x084;

pub const HUFF_DATA: usize = 0x088;

pub const QMAT_CTRL: usize = 0x090;

pub const QMAT_DATA: usize = 0x098;

pub const RST_INTVAL: usize = 0x0B0;

pub const RST_INDEX: usize = 0x0B4;

pub const RST_COUNT: usize = 0x0B8;

pub const DPCM_DIFF_Y: usize = 0x0F0;

pub const DPCM_DIFF_CB: usize = 0x0F4;

pub const DPCM_DIFF_CR: usize = 0x0F8;

pub const GBU_CTRL: usize = 0x100;

pub const GBU_WD_PTR: usize = 0x114;

pub const GBU_TT_CNT: usize = 0x118;

pub const GBU_TT_CNT_H: usize = 0x11C;

pub const GBU_BBSR: usize = 0x140;

pub const GBU_BBER: usize = 0x144;

pub const GBU_BBIR: usize = 0x148;

pub const GBU_BBHR: usize = 0x14C;

pub const GBU_FF_RPTR: usize = 0x160;

pub const BBC_END_ADDR: usize = 0x208;

pub const BBC_WR_PTR: usize = 0x20C;

pub const BBC_RD_PTR: usize = 0x210;

pub const BBC_EXT_ADDR: usize = 0x214;

pub const BBC_INT_ADDR: usize = 0x218;

pub const BBC_DATA_CNT: usize = 0x21C;

pub const BBC_COMMAND: usize = 0x220;

pub const BBC_BUSY: usize = 0x224;

pub const BBC_CTRL: usize = 0x228;

pub const BBC_CUR_POS: usize = 0x22C;

pub const BBC_BAS_ADDR: usize = 0x230;

pub const BBC_STRM_CTRL: usize = 0x234;

/// `MJPEG_PIC_START.START_PIC`.
pub const PIC_START_PIC: u32 = 0x1;

/// `MJPEG_PIC_START.START_INIT`.
pub const PIC_START_INIT: u32 = 0x2;

/// `MJPEG_PIC_STATUS.DONE`.
pub const PIC_STATUS_DONE: u32 = 0x1;

/// `MJPEG_PIC_STATUS.ERROR`.
pub const PIC_STATUS_ERROR: u32 = 0x2;

pub const HUFF_PHASE_MIN: u32 = 0x003;

pub const HUFF_PHASE_MAX: u32 = 0x403;

pub const HUFF_PHASE_PTR: u32 = 0x803;

pub const HUFF_PHASE_VAL: u32 = 0xC03;

pub const HUFF_ADDR_MAX: u32 = 0x440;

pub const HUFF_ADDR_PTR: u32 = 0x880;

pub const QMAT_PHASE_Y: u32 = 0x03;

pub const QMAT_PHASE_CB: u32 = 0x43;

pub const QMAT_PHASE_CR: u32 = 0x83;

/// Bounded number of polls of a busy bit.
pub const POLL_LIMIT: u32 = 100_000;

/// The accesses of the clock, reset and address-mode set-up, given the values read.
pub open spec fn hardware_init_prefix(
    jpu_base: usize,
    top_base: usize,
    vc_base: usize,
    clk: u32,
    rst: u32,
    ddr: u32,
    vc: u32,
    vc2: u32,
    status: u32,
    bbc: u32,
) -> Seq<BusOp> {
    modify32_ops(top_base, TOP_CLK_JPEG_OFF, clk, 0, TOP_CLK_JPEG_ENABLE) + modify32_ops(
        top_base,
        TOP_RST_JPEG_OFF,
        rst,
        0,
        TOP_RST_JPEG_RELEASE_BIT,
    ) + modify32_ops(top_base, TOP_DDR_ADDR_MODE_OFF, ddr, 0, TOP_DDR_VD_REMAP_BIT) + modify32_ops(
        vc_base,
        0,
        vc,
        0,
        VC_BLOCK_ENABLE,
    ) + seq![
        BusOp::Read32 { base: vc_base, offset: 0, value: vc2 },
        BusOp::Read32 { base: jpu_base, offset: PIC_STATUS, value: status },
        BusOp::Write32 { base: jpu_base, offset: BBC_BAS_ADDR, value: JPU_WARMUP_BBC_BASE },
        BusOp::Read32 { base: jpu_base, offset: BBC_BAS_ADDR, value: bbc },
    ]
}

/// `ops` requests a software reset of the JPU at `jpu_base` and polls its completion.
pub open spec fn sw_reset_ops(ops: Seq<BusOp>, jpu_base: usize) -> bool {
    &&& ops.len() >= 2
    &&& ops[0] == BusOp::Write32 { base: jpu_base, offset: PIC_START, value: PIC_START_INIT }
    &&& exists|done: bool|
        polled_until_clear(
            ops.subrange(1, ops.len() as int),
            jpu_base,
            PIC_START,
            PIC_START_INIT,
            POLL_LIMIT as int,
            done,
        )
}

/// `ops` are the accesses of [`hardware_init_at`]: the clock, reset and
/// address-mode set-up (for some values read), then the software reset of
/// the JPU with its poll.
pub open spec fn hardware_init_ops(ops: Seq<BusOp>, jpu_base: usize, top_base: usize, vc_base: usize) -> bool {
    exists|clk: u32, rst: u32, ddr: u32, vc: u32, vc2: u32, status: u32, bbc: u32|
        #![trigger hardware_init_prefix(jpu_base, top_base, vc_base, clk, rst, ddr, vc, vc2, status, bbc)]
        {
            let pre = hardware_init_prefix(jpu_base, top_base, vc_base, clk, rst, ddr, vc, vc2, status, bbc);
            &&& ops.len() >= pre.len()
            &&& ops.subrange(0, pre.len() as int) == pre
            &&& sw_reset_ops(ops.subrange(pre.len() as int, ops.len() as int), jpu_base)
        }
}

/// Enables the JPEG clock, releases its reset, sets the DDR address remap, enables
/// the video-codec blocks, warms up the bitstream buffer base and performs a
/// software reset of the JPU.
pub fn hardware_init_at<B: RegisterBus>(
    mmio: &mut Mmio<B>,
    jpu_base: usize,
    top_base: usize,
    vc_base: usize,
)
    ensures
        final(mmio).trace().len() >= old(mmio).trace().len(),
        final(mmio).trace().subrange(0, old(mmio).trace().len() as int) == old(mmio).trace(),
        hardware_init_ops(final(mmio).trace().skip(old(mmio).trace().len() as int), jpu_base, top_base, vc_base),
        exists|clk: u32, rst: u32, ddr: u32, vc: u32, vc2: u32, status: u32, bbc: u32|
            #![trigger hardware_init_prefix(jpu_base, top_base, vc_base, clk, rst, ddr, vc, vc2, status, bbc)]
            {
                let pre = hardware_init_prefix(
                    jpu_base,
                    top_base,
                    vc_base,
                    clk,
                    rst,
                    ddr,
                    vc,
                    vc2,
                    status,
                    bbc,
                );
                &&& final(mmio).trace().subrange(0, (old(mmio).trace().len() + pre.len()) as int)
                    == old(mmio).trace() + pre
                &&& sw_reset_ops(
                    final(mmio).trace().subrange(
                        (old(mmio).trace().len() + pre.len()) as int,
                        final(mmio).trace().len() as int,
                    ),
                    jpu_base,
                )
            },
{
    let ghost t0 = mmio.trace();
    let clk = mmio.modify32(top_base, TOP_CLK_JPEG_OFF, 0, TOP_CLK_JPEG_ENABLE);
    let rst = mmio.modify32(top_base, TOP_RST_JPEG_OFF, 0, TOP_RST_JPEG_RELEASE_BIT);
    let ddr = mmio.modify32(top_base, TOP_DDR_ADDR_MODE_OFF, 0, TOP_DDR_VD_REMAP_BIT);
    let vc = mmio.modify32(vc_base, 0, 0, VC_BLOCK_ENABLE);
    let vc2 = mmio.read32(vc_base, 0);
    let status = mmio.read32(jpu_base, PIC_STATUS);
    mmio.write32(jpu_base, BBC_BAS_ADDR, JPU_WARMUP_BBC_BASE);
    let bbc = mmio.read32(jpu_base, BBC_BAS_ADDR);
    let ghost pre = hardware_init_prefix(
        jpu_base,
        top_base,
        vc_base,
        clk,
        rst,
        ddr,
        vc,
        vc2,
        status,
        bbc,
    );
    assert(mmio.trace() =~= t0 + pre);
    let ghost t1 = mmio.trace();
    wait_sw_reset_done_at(mmio, jpu_base);
    assert(mmio.trace().subrange(0, t1.len() as int) =~= t1);
    assert(mmio.trace().subrange(0, t0.len() as int) =~= t1.subrange(0, t0.len() as int));
    proof {
        let t = mmio.trace();
        let ops = t.skip(t0.len() as int);
        assert(t1.len() == t0.len() + pre.len());
        assert(sw_reset_ops(t.subrange(t1.len() as int, t.len() as int), jpu_base));
        assert forall|k: int| 0 <= k < pre.len() implies #[trigger] ops.subrange(0, pre.len() as int)[k] == pre[k] by {
            assert(ops.subrange(0, pre.len() as int)[k] == t[t0.len() + k]);
            assert(t[t0.len() + k] == t.subrange(0, t1.len() as int)[t0.len() + k]);
            assert(t1[t0.len() + k] == (t0 + pre)[t0.len() + k]);
        }
        assert(ops.subrange(0, pre.len() as int) =~= pre);
        assert(ops.subrange(pre.len() as int, ops.len() as int) =~= t.subrange(
            (t0.len() + pre.len()) as int,
            t.len() as int,
        ));
        assert(hardware_init_ops(ops, jpu_base, top_base, vc_base));
    }
}

/// [`hardware_init_at`] at the default base addresses.
pub fn hardware_init<B: RegisterBus>(mmio: &mut Mmio<B>)
    ensures
        exists|clk: u32, rst: u32, ddr: u32, vc: u32, vc2: u32, status: u32, bbc: u32|
            #![trigger hardware_init_prefix(JPU_REG_BASE, TOP_BASE, VC_REG_BASE, clk, rst, ddr, vc, vc2, status, bbc)]
            {
                let pre = hardware_init_prefix(
                    JPU_REG_BASE,
                    TOP_BASE,
                    VC_REG_BASE,
                    clk,
                    rst,
                    ddr,
                    vc,
                    vc2,
                    status,
                    bbc,
                );
                &&& final(mmio).trace().subrange(0, (old(mmio).trace().len() + pre.len()) as int)
                    == old(mmio).trace() + pre
                &&& sw_reset_ops(
                    final(mmio).trace().subrange(
                        (old(mmio).trace().len() + pre.len()) as int,
                        final(mmio).trace().len() as int,
                    ),
                    JPU_REG_BASE,
                )
            },
{
    hardware_init_at(mmio, JPU_REG_BASE, TOP_BASE, VC_REG_BASE);
}

/// Writes `status` back to `MJPEG_PIC_STATUS`, acknowledging its bits.
pub fn clear_pic_status_at<B: RegisterBus>(mmio: &mut Mmio<B>, jpu_base: usize, status: u32)
    ensures
        final(mmio).trace() == old(mmio).trace().push(
            BusOp::Write32 { base: jpu_base, offset: PIC_STATUS, value: status },
        ),
{
    mmio.write32(jpu_base, PIC_STATUS, status);
}

/// [`clear_pic_status_at`] at the default base address.
pub fn clear_pic_status<B: RegisterBus>(mmio: &mut Mmio<B>, status: u32)
    ensures
        final(mmio).trace() == old(mmio).trace().push(
            BusOp::Write32 { base: JPU_REG_BASE, offset: PIC_STATUS, value: status },
        ),
{
    clear_pic_status_at(mmio, JPU_REG_BASE, status);
}

/// Requests a software reset and waits, boundedly, for `START_INIT` to clear.
pub fn wait_sw_reset_done_at<B: RegisterBus>(mmio: &mut Mmio<B>, jpu_base: usize)
    ensures
        final(mmio).trace().len() >= old(mmio).trace().len() + 2,
        final(mmio).trace().subrange(0, old(mmio).trace().len() as int) == old(mmio).trace(),
        sw_reset_ops(
            final(mmio).trace().subrange(
                old(mmio).trace().len() as int,
                final(mmio).trace().len() as int,
            ),
            jpu_base,
        ),
{
    let ghost t0 = mmio.trace();
    mmio.write32(jpu_base, PIC_START, PIC_START_INIT);
    let ghost t1 = mmio.trace();
    let done = mmio.poll32_until_clear(jpu_base, PIC_START, PIC_START_INIT, POLL_LIMIT);
    proof {
        let t = mmio.trace();
        let ops = t.subrange(t0.len() as int, t.len() as int);
        assert(t.subrange(0, t0.len() as int) =~= t0) by {
            assert(t.subrange(0, t1.len() as int) == t1);
        }
        assert(ops[0] == t1[t0.len() as int]);
        assert(ops.subrange(1, ops.len() as int) =~= t.subrange(t1.len() as int, t.len() as int));
    }
}

/// [`wait_sw_reset_done_at`] at the default base address.
pub fn wait_sw_reset_done<B: RegisterBus>(mmio: &mut Mmio<B>)
    ensures
        final(mmio).trace().len() >= old(mmio).trace().len() + 2,
        final(mmio).trace().subrange(0, old(mmio).trace().len() as int) == old(mmio).trace(),
        sw_reset_ops(
            final(mmio).trace().subrange(
                old(mmio).trace().len() as int,
                final(mmio).trace().len() as int,
            ),
            JPU_REG_BASE,
        ),
{
    wait_sw_reset_done_at(mmio, JPU_REG_BASE);
}

/// Waits, boundedly, for the bitstream buffer controller to become idle.
pub fn wait_bbc_idle_at<B: RegisterBus>(mmio: &mut Mmio<B>, jpu_base: usize) -> (idle: bool)
    ensures
        final(mmio).trace().len() > old(mmio).trace().len(),
        final(mmio).trace().subrange(0, old(mmio).trace().len() as int) == old(mmio).trace(),
        polled_until_clear(
            final(mmio).trace().subrange(
                old(mmio).trace().len() as int,
                final(mmio).trace().len() as int,
            ),
            jpu_base,
            BBC_BUSY,
            1,
            POLL_LIMIT as int,
            idle,
        ),
{
    mmio.poll32_until_clear(jpu_base, BBC_BUSY, 1, POLL_LIMIT)
}

/// [`wait_bbc_idle_at`] at the default base address.
pub fn wait_bbc_idle<B: RegisterBus>(mmio: &mut Mmio<B>) -> (idle: bool)
    ensures
        final(mmio).trace().len() > old(mmio).trace().len(),
        final(mmio).trace().subrange(0, old(mmio).trace().len() as int) == old(mmio).trace(),
        polled_until_clear(
            final(mmio).trace().subrange(
                old(mmio).trace().len() as int,
                final(mmio).trace().len() as int,
            ),
            JPU_REG_BASE,
            BBC_BUSY,
            1,
            POLL_LIMIT as int,
            idle,
        ),
{
    wait_bbc_idle_at(mmio, JPU_REG_BASE)
}

/// `MJPEG_PIC_CTRL` with user Huffman tables and the given table selections.
pub fn pic_ctrl_value(dc_idx: u32, ac_idx: u32) -> (v: u32)
    ensures
        v == ((ac_idx & 0x7) << 10u32) | ((dc_idx & 0x7) << 7u32) | 0x40,
{
    ((ac_idx & 0x7) << 10u32) | ((dc_idx & 0x7) << 7u32) | 0x40
}

/// `MJPEG_BBC_STRM_CTRL`: end flag and page count.
pub fn bbc_strm_ctrl_value(pages: u32) -> (v: u32)
    ensures
        v == 0x8000_0000u32 | (pages & 0x7FFF_FFFF),
{
    0x8000_0000u32 | (pages & 0x7FFF_FFFF)
}

/// `MJPEG_SCL_INFO`: scale enable in bit 4 and the two-bit mode of the
/// horizontal (bits 3:2) and vertical (bits 1:0) axes.
pub fn scl_info_value(scale: JpuScale) -> (v: u32)
    ensures
        v == if scale == JpuScale::Full {
            0u32
        } else {
            0x10u32 | (scale_mode(scale) << 2u32) | scale_mode(scale)
        },
{
    let mode = scale.register_mode();
    if mode == 0 {
        0
    } else {
        0x10u32 | (mode << 2u32) | mode
    }
}

/// The JPU register block mapped at `jpu_base`, named by its base address.
pub fn jpu_regs_at(jpu_base: usize) -> (b: usize)
    ensures
        b == jpu_base,
{
    jpu_base
}

/// Base address of the JPU register block at its default physical address.
pub fn jpu_regs() -> (b: usize)
    ensures
        b == JPU_REG_BASE,
{
    jpu_regs_at(JPU_REG_BASE)
}

} // verus!
